//! Pushing and pulling the accumulator and the flags.

use crate::memory::Memory;
use crate::registers::{Accumulator, Flags, Register, Registers};
use crate::state::{pull, push, State};
use vstd::prelude::*;

verus! {

/// PHA: push the accumulator.
#[derive(Clone, Copy, Debug, PartialEq, Eq, Structural)]
pub struct PHA;

impl PHA {
    /// The machine code: the opcode alone.
    pub open spec fn encoding(&self) -> Seq<u8> {
        seq![0x48u8]
    }

    /// The accumulator is pushed onto the stack. The program counter moves past
    /// the instruction.
    pub open spec fn effect(&self, s: State) -> State {
        s.push(s.registers.acc.value).advance(1)
    }

    /// Executes the instruction.
    pub fn evaluate(&self, memory: &mut Memory, registers: &mut Registers)
        ensures
            State::of(*final(memory), *final(registers)) == self.effect(
                State::of(*old(memory), *old(registers)),
            ),
    {
        let value = registers.acc.value;
        push(memory, registers, value);
        registers.advance(1);
    }

    /// The machine code of the instruction.
    pub fn render(&self) -> (bytes: Vec<u8>)
        ensures
            bytes@ == self.encoding(),
    {
        let bytes = vec![0x48];
        assert(bytes@ =~= self.encoding());
        bytes
    }
}

/// PLA: pull the accumulator.
#[derive(Clone, Copy, Debug, PartialEq, Eq, Structural)]
pub struct PLA;

impl PLA {
    /// The machine code: the opcode alone.
    pub open spec fn encoding(&self) -> Seq<u8> {
        seq![0x68u8]
    }

    /// The accumulator receives the byte pulled off the stack. No flag changes.
    /// The program counter moves past the instruction.
    pub open spec fn effect(&self, s: State) -> State {
        State {
            registers: Registers { acc: Accumulator { value: s.top() }, ..s.pull().registers },
            ..s
        }.advance(1)
    }

    /// Executes the instruction.
    pub fn evaluate(&self, memory: &mut Memory, registers: &mut Registers)
        ensures
            State::of(*final(memory), *final(registers)) == self.effect(
                State::of(*old(memory), *old(registers)),
            ),
    {
        let value = pull(memory, registers);
        registers.acc.value = value;
        registers.advance(1);
    }

    /// The machine code of the instruction.
    pub fn render(&self) -> (bytes: Vec<u8>)
        ensures
            bytes@ == self.encoding(),
    {
        let bytes = vec![0x68];
        assert(bytes@ =~= self.encoding());
        bytes
    }
}

/// PHP: push the flags.
#[derive(Clone, Copy, Debug, PartialEq, Eq, Structural)]
pub struct PHP;

impl PHP {
    /// The machine code: the opcode alone.
    pub open spec fn encoding(&self) -> Seq<u8> {
        seq![0x08u8]
    }

    /// The packed flags byte is pushed onto the stack. The program counter
    /// moves past the instruction.
    pub open spec fn effect(&self, s: State) -> State {
        s.push(s.registers.flags.packed() as u8).advance(1)
    }

    /// Executes the instruction.
    pub fn evaluate(&self, memory: &mut Memory, registers: &mut Registers)
        ensures
            State::of(*final(memory), *final(registers)) == self.effect(
                State::of(*old(memory), *old(registers)),
            ),
    {
        let value = registers.flags.raw();
        push(memory, registers, value as u8);
        registers.advance(1);
    }

    /// The machine code of the instruction.
    pub fn render(&self) -> (bytes: Vec<u8>)
        ensures
            bytes@ == self.encoding(),
    {
        let bytes = vec![0x08];
        assert(bytes@ =~= self.encoding());
        bytes
    }
}

/// PLP: pull the flags.
#[derive(Clone, Copy, Debug, PartialEq, Eq, Structural)]
pub struct PLP;

impl PLP {
    /// The machine code: the opcode alone.
    pub open spec fn encoding(&self) -> Seq<u8> {
        seq![0x28u8]
    }

    /// All seven flags are replaced by those packed in the byte pulled off the
    /// stack. The program counter moves past the instruction.
    pub open spec fn effect(&self, s: State) -> State {
        State {
            registers: Registers { flags: Flags::unpacked(s.top()), ..s.pull().registers },
            ..s
        }.advance(1)
    }

    /// Executes the instruction.
    pub fn evaluate(&self, memory: &mut Memory, registers: &mut Registers)
        ensures
            State::of(*final(memory), *final(registers)) == self.effect(
                State::of(*old(memory), *old(registers)),
            ),
    {
        let value = pull(memory, registers);
        registers.flags.write(value);
        registers.advance(1);
    }

    /// The machine code of the instruction.
    pub fn render(&self) -> (bytes: Vec<u8>)
        ensures
            bytes@ == self.encoding(),
    {
        let bytes = vec![0x28];
        assert(bytes@ =~= self.encoding());
        bytes
    }
}

/// Pulling restores what pushing saved: PHA then PLA leaves the accumulator
/// and the stack pointer as they were, and PHP then PLP the flags and the
/// stack pointer. Each pair moves the program counter by two.
pub proof fn lemma_pull_after_push(s: State)
    requires
        s.wf(),
    ensures
        PLA.effect(PHA.effect(s)).registers == s.registers.advanced(2),
        PLP.effect(PHP.effect(s)).registers == s.registers.advanced(2),
{
    s.registers.flags.lemma_unpacked_packed();
}

} // verus!
