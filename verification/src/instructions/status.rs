//! Instructions that set or clear one status flag.

use crate::memory::Memory;
use crate::registers::{Flags, Registers};
use crate::state::State;
use vstd::prelude::*;

verus! {

/// CLC: clear carry.
#[derive(Clone, Copy, Debug, PartialEq, Eq, Structural)]
pub struct CLC;

impl CLC {
    /// The machine code: the opcode alone.
    pub open spec fn encoding(&self) -> Seq<u8> {
        seq![0x18u8]
    }

    /// Carry is cleared; the other flags stay. The program counter moves past
    /// the instruction.
    pub open spec fn effect(&self, s: State) -> State {
        State {
            registers: Registers {
                flags: Flags { carry: false, ..s.registers.flags },
                ..s.registers
            },
            ..s
        }.advance(1)
    }

    /// Executes the instruction.
    pub fn evaluate(&self, memory: &mut Memory, registers: &mut Registers)
        ensures
            State::of(*final(memory), *final(registers)) == self.effect(
                State::of(*old(memory), *old(registers)),
            ),
    {
        registers.flags.carry = false;
        registers.advance(1);
    }

    /// The machine code of the instruction.
    pub fn render(&self) -> (bytes: Vec<u8>)
        ensures
            bytes@ == self.encoding(),
    {
        let bytes = vec![0x18];
        assert(bytes@ =~= self.encoding());
        bytes
    }
}

/// SEC: set carry.
#[derive(Clone, Copy, Debug, PartialEq, Eq, Structural)]
pub struct SEC;

impl SEC {
    /// The machine code: the opcode alone.
    pub open spec fn encoding(&self) -> Seq<u8> {
        seq![0x38u8]
    }

    /// Carry is set; the other flags stay. The program counter moves past the
    /// instruction.
    pub open spec fn effect(&self, s: State) -> State {
        State {
            registers: Registers {
                flags: Flags { carry: true, ..s.registers.flags },
                ..s.registers
            },
            ..s
        }.advance(1)
    }

    /// Executes the instruction.
    pub fn evaluate(&self, memory: &mut Memory, registers: &mut Registers)
        ensures
            State::of(*final(memory), *final(registers)) == self.effect(
                State::of(*old(memory), *old(registers)),
            ),
    {
        registers.flags.carry = true;
        registers.advance(1);
    }

    /// The machine code of the instruction.
    pub fn render(&self) -> (bytes: Vec<u8>)
        ensures
            bytes@ == self.encoding(),
    {
        let bytes = vec![0x38];
        assert(bytes@ =~= self.encoding());
        bytes
    }
}

/// CLI: clear interrupt disable.
#[derive(Clone, Copy, Debug, PartialEq, Eq, Structural)]
pub struct CLI;

impl CLI {
    /// The machine code: the opcode alone.
    pub open spec fn encoding(&self) -> Seq<u8> {
        seq![0x58u8]
    }

    /// Interrupt disable is cleared; the other flags stay. The program counter
    /// moves past the instruction.
    pub open spec fn effect(&self, s: State) -> State {
        State {
            registers: Registers {
                flags: Flags { interrupt_disable: false, ..s.registers.flags },
                ..s.registers
            },
            ..s
        }.advance(1)
    }

    /// Executes the instruction.
    pub fn evaluate(&self, memory: &mut Memory, registers: &mut Registers)
        ensures
            State::of(*final(memory), *final(registers)) == self.effect(
                State::of(*old(memory), *old(registers)),
            ),
    {
        registers.flags.interrupt_disable = false;
        registers.advance(1);
    }

    /// The machine code of the instruction.
    pub fn render(&self) -> (bytes: Vec<u8>)
        ensures
            bytes@ == self.encoding(),
    {
        let bytes = vec![0x58];
        assert(bytes@ =~= self.encoding());
        bytes
    }
}

/// SEI: set interrupt disable.
#[derive(Clone, Copy, Debug, PartialEq, Eq, Structural)]
pub struct SEI;

impl SEI {
    /// The machine code: the opcode alone.
    pub open spec fn encoding(&self) -> Seq<u8> {
        seq![0x78u8]
    }

    /// Interrupt disable is set; the other flags stay. The program counter
    /// moves past the instruction.
    pub open spec fn effect(&self, s: State) -> State {
        State {
            registers: Registers {
                flags: Flags { interrupt_disable: true, ..s.registers.flags },
                ..s.registers
            },
            ..s
        }.advance(1)
    }

    /// Executes the instruction.
    pub fn evaluate(&self, memory: &mut Memory, registers: &mut Registers)
        ensures
            State::of(*final(memory), *final(registers)) == self.effect(
                State::of(*old(memory), *old(registers)),
            ),
    {
        registers.flags.interrupt_disable = true;
        registers.advance(1);
    }

    /// The machine code of the instruction.
    pub fn render(&self) -> (bytes: Vec<u8>)
        ensures
            bytes@ == self.encoding(),
    {
        let bytes = vec![0x78];
        assert(bytes@ =~= self.encoding());
        bytes
    }
}

/// CLV: clear overflow.
#[derive(Clone, Copy, Debug, PartialEq, Eq, Structural)]
pub struct CLV;

impl CLV {
    /// The machine code: the opcode alone.
    pub open spec fn encoding(&self) -> Seq<u8> {
        seq![0xB8u8]
    }

    /// Overflow is cleared; the other flags stay. The program counter moves
    /// past the instruction.
    pub open spec fn effect(&self, s: State) -> State {
        State {
            registers: Registers {
                flags: Flags { overflow: false, ..s.registers.flags },
                ..s.registers
            },
            ..s
        }.advance(1)
    }

    /// Executes the instruction.
    pub fn evaluate(&self, memory: &mut Memory, registers: &mut Registers)
        ensures
            State::of(*final(memory), *final(registers)) == self.effect(
                State::of(*old(memory), *old(registers)),
            ),
    {
        registers.flags.overflow = false;
        registers.advance(1);
    }

    /// The machine code of the instruction.
    pub fn render(&self) -> (bytes: Vec<u8>)
        ensures
            bytes@ == self.encoding(),
    {
        let bytes = vec![0xB8];
        assert(bytes@ =~= self.encoding());
        bytes
    }
}

/// CLD: clear decimal mode.
#[derive(Clone, Copy, Debug, PartialEq, Eq, Structural)]
pub struct CLD;

impl CLD {
    /// The machine code: the opcode alone.
    pub open spec fn encoding(&self) -> Seq<u8> {
        seq![0xD8u8]
    }

    /// Decimal mode is cleared; the other flags stay. The program counter moves
    /// past the instruction.
    pub open spec fn effect(&self, s: State) -> State {
        State {
            registers: Registers {
                flags: Flags { decimal_mode: false, ..s.registers.flags },
                ..s.registers
            },
            ..s
        }.advance(1)
    }

    /// Executes the instruction.
    pub fn evaluate(&self, memory: &mut Memory, registers: &mut Registers)
        ensures
            State::of(*final(memory), *final(registers)) == self.effect(
                State::of(*old(memory), *old(registers)),
            ),
    {
        registers.flags.decimal_mode = false;
        registers.advance(1);
    }

    /// The machine code of the instruction.
    pub fn render(&self) -> (bytes: Vec<u8>)
        ensures
            bytes@ == self.encoding(),
    {
        let bytes = vec![0xD8];
        assert(bytes@ =~= self.encoding());
        bytes
    }
}

/// SED: set decimal mode.
#[derive(Clone, Copy, Debug, PartialEq, Eq, Structural)]
pub struct SED;

impl SED {
    /// The machine code: the opcode alone.
    pub open spec fn encoding(&self) -> Seq<u8> {
        seq![0xF8u8]
    }

    /// Decimal mode is set; the other flags stay. The program counter moves
    /// past the instruction.
    pub open spec fn effect(&self, s: State) -> State {
        State {
            registers: Registers {
                flags: Flags { decimal_mode: true, ..s.registers.flags },
                ..s.registers
            },
            ..s
        }.advance(1)
    }

    /// Executes the instruction.
    pub fn evaluate(&self, memory: &mut Memory, registers: &mut Registers)
        ensures
            State::of(*final(memory), *final(registers)) == self.effect(
                State::of(*old(memory), *old(registers)),
            ),
    {
        registers.flags.decimal_mode = true;
        registers.advance(1);
    }

    /// The machine code of the instruction.
    pub fn render(&self) -> (bytes: Vec<u8>)
        ensures
            bytes@ == self.encoding(),
    {
        let bytes = vec![0xF8];
        assert(bytes@ =~= self.encoding());
        bytes
    }
}

} // verus!
