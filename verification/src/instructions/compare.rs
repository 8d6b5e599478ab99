//! Comparisons of a register with an operand.

use super::addressing::AddressingMode;
use super::encode;
use crate::memory::Memory;
use crate::registers::{Flags, Registers};
use crate::state::State;
use vstd::prelude::*;

verus! {

/// The flags after `register` is compared with `operand`. With
/// `difference = register - operand`: carry is set exactly when the
/// difference is not negative, zero exactly when it is zero, negative exactly
/// when it is below zero. The other flags stay.
pub open spec fn compared(flags: Flags, register: u8, operand: u8) -> Flags {
    let difference = register - operand;
    Flags { carry: difference >= 0, zero: difference == 0, negative: difference < 0, ..flags }
}

/// Sets carry, zero and negative from the comparison of `register` with
/// `operand`.
pub fn compare(flags: &mut Flags, register: u8, operand: u8)
    ensures
        *final(flags) == compared(*old(flags), register, operand),
{
    flags.carry = register >= operand;
    flags.zero = register == operand;
    flags.negative = register < operand;
}

/// CMP: compare the accumulator with the operand.
#[derive(Clone, Copy, Debug, PartialEq, Eq, Structural)]
pub struct CMP(pub AddressingMode);

impl CMP {
    /// The opcode of CMP in each addressing mode that it accepts.
    pub open spec fn opcode_of(mode: AddressingMode) -> Option<u8> {
        match mode {
            AddressingMode::Immediate(_) => Some(0xC9u8),
            AddressingMode::ZeroPage(_) => Some(0xC5u8),
            AddressingMode::ZeroPageX(_) => Some(0xD5u8),
            AddressingMode::Absolute(_) => Some(0xCDu8),
            AddressingMode::AbsoluteX(_) => Some(0xDDu8),
            AddressingMode::AbsoluteY(_) => Some(0xD9u8),
            AddressingMode::IndexedIndirect(_) => Some(0xC1u8),
            AddressingMode::IndirectIndexed(_) => Some(0xD1u8),
            _ => None,
        }
    }

    /// Whether the addressing mode is one that CMP accepts.
    pub open spec fn legal(&self) -> bool {
        Self::opcode_of(self.0) is Some
    }

    /// The machine code: the opcode, then the operand bytes.
    pub open spec fn encoding(&self) -> Seq<u8> {
        seq![Self::opcode_of(self.0).unwrap()] + self.0.operand_bytes()
    }

    /// Carry, zero and negative are set from the comparison of the accumulator
    /// with the operand (see [`compared`]). No register changes but the program
    /// counter, which moves past the instruction.
    pub open spec fn effect(&self, s: State) -> State {
        State {
            registers: Registers {
                flags: compared(s.registers.flags, s.registers.acc.value, self.0.operand(s)),
                ..s.registers
            },
            ..s
        }.advance(1 + self.0.operand_len())
    }

    /// The opcode, or `None` where CMP does not accept the addressing
    /// mode.
    pub fn opcode(&self) -> (op: Option<u8>)
        ensures
            op == Self::opcode_of(self.0),
    {
        match self.0 {
            AddressingMode::Immediate(_) => Some(0xC9),
            AddressingMode::ZeroPage(_) => Some(0xC5),
            AddressingMode::ZeroPageX(_) => Some(0xD5),
            AddressingMode::Absolute(_) => Some(0xCD),
            AddressingMode::AbsoluteX(_) => Some(0xDD),
            AddressingMode::AbsoluteY(_) => Some(0xD9),
            AddressingMode::IndexedIndirect(_) => Some(0xC1),
            AddressingMode::IndirectIndexed(_) => Some(0xD1),
            _ => None,
        }
    }

    /// Executes the instruction. The addressing mode must be one that CMP
    /// accepts.
    pub fn evaluate(&self, memory: &mut Memory, registers: &mut Registers)
        requires
            self.legal(),
        ensures
            State::of(*final(memory), *final(registers)) == self.effect(
                State::of(*old(memory), *old(registers)),
            ),
    {
        let value = self.0.read(memory, registers);
        compare(&mut registers.flags, registers.acc.value, value);
        registers.advance(1 + self.0.length());
    }

    /// The machine code of the instruction.
    pub fn render(&self) -> (bytes: Vec<u8>)
        requires
            self.legal(),
        ensures
            bytes@ == self.encoding(),
    {
        encode(self.opcode(), &self.0)
    }
}

/// CPX: compare X with the operand.
#[derive(Clone, Copy, Debug, PartialEq, Eq, Structural)]
pub struct CPX(pub AddressingMode);

impl CPX {
    /// The opcode of CPX in each addressing mode that it accepts.
    pub open spec fn opcode_of(mode: AddressingMode) -> Option<u8> {
        match mode {
            AddressingMode::Immediate(_) => Some(0xE0u8),
            AddressingMode::ZeroPage(_) => Some(0xE4u8),
            AddressingMode::Absolute(_) => Some(0xECu8),
            _ => None,
        }
    }

    /// Whether the addressing mode is one that CPX accepts.
    pub open spec fn legal(&self) -> bool {
        Self::opcode_of(self.0) is Some
    }

    /// The machine code: the opcode, then the operand bytes.
    pub open spec fn encoding(&self) -> Seq<u8> {
        seq![Self::opcode_of(self.0).unwrap()] + self.0.operand_bytes()
    }

    /// Carry, zero and negative are set from the comparison of X with the
    /// operand (see [`compared`]). No register changes but the program counter,
    /// which moves past the instruction.
    pub open spec fn effect(&self, s: State) -> State {
        State {
            registers: Registers {
                flags: compared(s.registers.flags, s.registers.x.value, self.0.operand(s)),
                ..s.registers
            },
            ..s
        }.advance(1 + self.0.operand_len())
    }

    /// The opcode, or `None` where CPX does not accept the addressing
    /// mode.
    pub fn opcode(&self) -> (op: Option<u8>)
        ensures
            op == Self::opcode_of(self.0),
    {
        match self.0 {
            AddressingMode::Immediate(_) => Some(0xE0),
            AddressingMode::ZeroPage(_) => Some(0xE4),
            AddressingMode::Absolute(_) => Some(0xEC),
            _ => None,
        }
    }

    /// Executes the instruction. The addressing mode must be one that CPX
    /// accepts.
    pub fn evaluate(&self, memory: &mut Memory, registers: &mut Registers)
        requires
            self.legal(),
        ensures
            State::of(*final(memory), *final(registers)) == self.effect(
                State::of(*old(memory), *old(registers)),
            ),
    {
        let value = self.0.read(memory, registers);
        compare(&mut registers.flags, registers.x.value, value);
        registers.advance(1 + self.0.length());
    }

    /// The machine code of the instruction.
    pub fn render(&self) -> (bytes: Vec<u8>)
        requires
            self.legal(),
        ensures
            bytes@ == self.encoding(),
    {
        encode(self.opcode(), &self.0)
    }
}

/// CPY: compare Y with the operand.
#[derive(Clone, Copy, Debug, PartialEq, Eq, Structural)]
pub struct CPY(pub AddressingMode);

impl CPY {
    /// The opcode of CPY in each addressing mode that it accepts.
    pub open spec fn opcode_of(mode: AddressingMode) -> Option<u8> {
        match mode {
            AddressingMode::Immediate(_) => Some(0xC0u8),
            AddressingMode::ZeroPage(_) => Some(0xC4u8),
            AddressingMode::Absolute(_) => Some(0xCCu8),
            _ => None,
        }
    }

    /// Whether the addressing mode is one that CPY accepts.
    pub open spec fn legal(&self) -> bool {
        Self::opcode_of(self.0) is Some
    }

    /// The machine code: the opcode, then the operand bytes.
    pub open spec fn encoding(&self) -> Seq<u8> {
        seq![Self::opcode_of(self.0).unwrap()] + self.0.operand_bytes()
    }

    /// Carry, zero and negative are set from the comparison of Y with the
    /// operand (see [`compared`]). No register changes but the program counter,
    /// which moves past the instruction.
    pub open spec fn effect(&self, s: State) -> State {
        State {
            registers: Registers {
                flags: compared(s.registers.flags, s.registers.y.value, self.0.operand(s)),
                ..s.registers
            },
            ..s
        }.advance(1 + self.0.operand_len())
    }

    /// The opcode, or `None` where CPY does not accept the addressing
    /// mode.
    pub fn opcode(&self) -> (op: Option<u8>)
        ensures
            op == Self::opcode_of(self.0),
    {
        match self.0 {
            AddressingMode::Immediate(_) => Some(0xC0),
            AddressingMode::ZeroPage(_) => Some(0xC4),
            AddressingMode::Absolute(_) => Some(0xCC),
            _ => None,
        }
    }

    /// Executes the instruction. The addressing mode must be one that CPY
    /// accepts.
    pub fn evaluate(&self, memory: &mut Memory, registers: &mut Registers)
        requires
            self.legal(),
        ensures
            State::of(*final(memory), *final(registers)) == self.effect(
                State::of(*old(memory), *old(registers)),
            ),
    {
        let value = self.0.read(memory, registers);
        compare(&mut registers.flags, registers.y.value, value);
        registers.advance(1 + self.0.length());
    }

    /// The machine code of the instruction.
    pub fn render(&self) -> (bytes: Vec<u8>)
        requires
            self.legal(),
        ensures
            bytes@ == self.encoding(),
    {
        encode(self.opcode(), &self.0)
    }
}

} // verus!
