//! Control flow: branches, jumps, subroutine call and return, and the two
//! instructions that only move the program counter.

use super::addressing::AddressingMode;
use super::alu::{from_signed, unsigned};
use super::encode;
use crate::memory::{join_bytes, word, Memory};
use crate::registers::{Flags, Registers};
use crate::state::{pull, push, State};
use vstd::prelude::*;

verus! {

/// The state after a branch instruction: the program counter first moves
/// past the two bytes of the instruction; if the branch is taken, the signed
/// displacement is then added to it. Both steps wrap at the end of the
/// address space.
pub open spec fn branched(s: State, taken: bool, displacement: i8) -> State {
    if taken {
        s.jump(s.registers.pc.value + 2 + displacement)
    } else {
        s.advance(2)
    }
}

/// Moves the program counter as a branch instruction does.
pub fn branch(registers: &mut Registers, taken: bool, displacement: i8)
    ensures
        *final(registers) == if taken {
            old(registers).at(old(registers).pc.value + 2 + displacement)
        } else {
            old(registers).advanced(2)
        },
{
    registers.advance(2);
    if taken {
        registers.pc.value = registers.pc.value.wrapping_add_signed(i16::from(displacement));
    }
}

/// BPL: branch if plus.
#[derive(Clone, Copy, Debug, PartialEq, Eq, Structural)]
pub struct BPL(pub i8);

impl BPL {
    /// The machine code: the opcode, then the displacement as one byte in
    /// two's complement.
    pub open spec fn encoding(&self) -> Seq<u8> {
        seq![0x10u8, unsigned(self.0)]
    }

    /// The branch is taken exactly when the negative flag is clear (see
    /// [`branched`]). Nothing but the program counter changes.
    pub open spec fn effect(&self, s: State) -> State {
        branched(s, !s.registers.flags.negative, self.0)
    }

    /// Executes the instruction.
    pub fn evaluate(&self, memory: &mut Memory, registers: &mut Registers)
        ensures
            State::of(*final(memory), *final(registers)) == self.effect(
                State::of(*old(memory), *old(registers)),
            ),
    {
        let taken = !registers.flags.negative;
        branch(registers, taken, self.0);
    }

    /// The machine code of the instruction.
    pub fn render(&self) -> (bytes: Vec<u8>)
        ensures
            bytes@ == self.encoding(),
    {
        let bytes = vec![0x10, from_signed(self.0)];
        assert(bytes@ =~= self.encoding());
        bytes
    }
}

/// BMI: branch if minus.
#[derive(Clone, Copy, Debug, PartialEq, Eq, Structural)]
pub struct BMI(pub i8);

impl BMI {
    /// The machine code: the opcode, then the displacement as one byte in
    /// two's complement.
    pub open spec fn encoding(&self) -> Seq<u8> {
        seq![0x30u8, unsigned(self.0)]
    }

    /// The branch is taken exactly when the negative flag is set (see
    /// [`branched`]). Nothing but the program counter changes.
    pub open spec fn effect(&self, s: State) -> State {
        branched(s, s.registers.flags.negative, self.0)
    }

    /// Executes the instruction.
    pub fn evaluate(&self, memory: &mut Memory, registers: &mut Registers)
        ensures
            State::of(*final(memory), *final(registers)) == self.effect(
                State::of(*old(memory), *old(registers)),
            ),
    {
        let taken = registers.flags.negative;
        branch(registers, taken, self.0);
    }

    /// The machine code of the instruction.
    pub fn render(&self) -> (bytes: Vec<u8>)
        ensures
            bytes@ == self.encoding(),
    {
        let bytes = vec![0x30, from_signed(self.0)];
        assert(bytes@ =~= self.encoding());
        bytes
    }
}

/// BVC: branch if overflow clear.
#[derive(Clone, Copy, Debug, PartialEq, Eq, Structural)]
pub struct BVC(pub i8);

impl BVC {
    /// The machine code: the opcode, then the displacement as one byte in
    /// two's complement.
    pub open spec fn encoding(&self) -> Seq<u8> {
        seq![0x50u8, unsigned(self.0)]
    }

    /// The branch is taken exactly when the overflow flag is clear (see
    /// [`branched`]). Nothing but the program counter changes.
    pub open spec fn effect(&self, s: State) -> State {
        branched(s, !s.registers.flags.overflow, self.0)
    }

    /// Executes the instruction.
    pub fn evaluate(&self, memory: &mut Memory, registers: &mut Registers)
        ensures
            State::of(*final(memory), *final(registers)) == self.effect(
                State::of(*old(memory), *old(registers)),
            ),
    {
        let taken = !registers.flags.overflow;
        branch(registers, taken, self.0);
    }

    /// The machine code of the instruction.
    pub fn render(&self) -> (bytes: Vec<u8>)
        ensures
            bytes@ == self.encoding(),
    {
        let bytes = vec![0x50, from_signed(self.0)];
        assert(bytes@ =~= self.encoding());
        bytes
    }
}

/// BVS: branch if overflow set.
#[derive(Clone, Copy, Debug, PartialEq, Eq, Structural)]
pub struct BVS(pub i8);

impl BVS {
    /// The machine code: the opcode, then the displacement as one byte in
    /// two's complement.
    pub open spec fn encoding(&self) -> Seq<u8> {
        seq![0x70u8, unsigned(self.0)]
    }

    /// The branch is taken exactly when the overflow flag is set (see
    /// [`branched`]). Nothing but the program counter changes.
    pub open spec fn effect(&self, s: State) -> State {
        branched(s, s.registers.flags.overflow, self.0)
    }

    /// Executes the instruction.
    pub fn evaluate(&self, memory: &mut Memory, registers: &mut Registers)
        ensures
            State::of(*final(memory), *final(registers)) == self.effect(
                State::of(*old(memory), *old(registers)),
            ),
    {
        let taken = registers.flags.overflow;
        branch(registers, taken, self.0);
    }

    /// The machine code of the instruction.
    pub fn render(&self) -> (bytes: Vec<u8>)
        ensures
            bytes@ == self.encoding(),
    {
        let bytes = vec![0x70, from_signed(self.0)];
        assert(bytes@ =~= self.encoding());
        bytes
    }
}

/// BCC: branch if carry clear.
#[derive(Clone, Copy, Debug, PartialEq, Eq, Structural)]
pub struct BCC(pub i8);

impl BCC {
    /// The machine code: the opcode, then the displacement as one byte in
    /// two's complement.
    pub open spec fn encoding(&self) -> Seq<u8> {
        seq![0x90u8, unsigned(self.0)]
    }

    /// The branch is taken exactly when the carry flag is clear (see
    /// [`branched`]). Nothing but the program counter changes.
    pub open spec fn effect(&self, s: State) -> State {
        branched(s, !s.registers.flags.carry, self.0)
    }

    /// Executes the instruction.
    pub fn evaluate(&self, memory: &mut Memory, registers: &mut Registers)
        ensures
            State::of(*final(memory), *final(registers)) == self.effect(
                State::of(*old(memory), *old(registers)),
            ),
    {
        let taken = !registers.flags.carry;
        branch(registers, taken, self.0);
    }

    /// The machine code of the instruction.
    pub fn render(&self) -> (bytes: Vec<u8>)
        ensures
            bytes@ == self.encoding(),
    {
        let bytes = vec![0x90, from_signed(self.0)];
        assert(bytes@ =~= self.encoding());
        bytes
    }
}

/// BCS: branch if carry set.
#[derive(Clone, Copy, Debug, PartialEq, Eq, Structural)]
pub struct BCS(pub i8);

impl BCS {
    /// The machine code: the opcode, then the displacement as one byte in
    /// two's complement.
    pub open spec fn encoding(&self) -> Seq<u8> {
        seq![0xB0u8, unsigned(self.0)]
    }

    /// The branch is taken exactly when the carry flag is set (see
    /// [`branched`]). Nothing but the program counter changes.
    pub open spec fn effect(&self, s: State) -> State {
        branched(s, s.registers.flags.carry, self.0)
    }

    /// Executes the instruction.
    pub fn evaluate(&self, memory: &mut Memory, registers: &mut Registers)
        ensures
            State::of(*final(memory), *final(registers)) == self.effect(
                State::of(*old(memory), *old(registers)),
            ),
    {
        let taken = registers.flags.carry;
        branch(registers, taken, self.0);
    }

    /// The machine code of the instruction.
    pub fn render(&self) -> (bytes: Vec<u8>)
        ensures
            bytes@ == self.encoding(),
    {
        let bytes = vec![0xB0, from_signed(self.0)];
        assert(bytes@ =~= self.encoding());
        bytes
    }
}

/// BNE: branch if not equal.
#[derive(Clone, Copy, Debug, PartialEq, Eq, Structural)]
pub struct BNE(pub i8);

impl BNE {
    /// The machine code: the opcode, then the displacement as one byte in
    /// two's complement.
    pub open spec fn encoding(&self) -> Seq<u8> {
        seq![0xD0u8, unsigned(self.0)]
    }

    /// The branch is taken exactly when the zero flag is clear (see
    /// [`branched`]). Nothing but the program counter changes.
    pub open spec fn effect(&self, s: State) -> State {
        branched(s, !s.registers.flags.zero, self.0)
    }

    /// Executes the instruction.
    pub fn evaluate(&self, memory: &mut Memory, registers: &mut Registers)
        ensures
            State::of(*final(memory), *final(registers)) == self.effect(
                State::of(*old(memory), *old(registers)),
            ),
    {
        let taken = !registers.flags.zero;
        branch(registers, taken, self.0);
    }

    /// The machine code of the instruction.
    pub fn render(&self) -> (bytes: Vec<u8>)
        ensures
            bytes@ == self.encoding(),
    {
        let bytes = vec![0xD0, from_signed(self.0)];
        assert(bytes@ =~= self.encoding());
        bytes
    }
}

/// BEQ: branch if equal.
#[derive(Clone, Copy, Debug, PartialEq, Eq, Structural)]
pub struct BEQ(pub i8);

impl BEQ {
    /// The machine code: the opcode, then the displacement as one byte in
    /// two's complement.
    pub open spec fn encoding(&self) -> Seq<u8> {
        seq![0xF0u8, unsigned(self.0)]
    }

    /// The branch is taken exactly when the zero flag is set (see
    /// [`branched`]). Nothing but the program counter changes.
    pub open spec fn effect(&self, s: State) -> State {
        branched(s, s.registers.flags.zero, self.0)
    }

    /// Executes the instruction.
    pub fn evaluate(&self, memory: &mut Memory, registers: &mut Registers)
        ensures
            State::of(*final(memory), *final(registers)) == self.effect(
                State::of(*old(memory), *old(registers)),
            ),
    {
        let taken = registers.flags.zero;
        branch(registers, taken, self.0);
    }

    /// The machine code of the instruction.
    pub fn render(&self) -> (bytes: Vec<u8>)
        ensures
            bytes@ == self.encoding(),
    {
        let bytes = vec![0xF0, from_signed(self.0)];
        assert(bytes@ =~= self.encoding());
        bytes
    }
}

/// JMP: jump.
#[derive(Clone, Copy, Debug, PartialEq, Eq, Structural)]
pub struct JMP(pub AddressingMode);

impl JMP {
    /// The opcode of JMP in each addressing mode that it accepts.
    pub open spec fn opcode_of(mode: AddressingMode) -> Option<u8> {
        match mode {
            AddressingMode::Absolute(_) => Some(0x4Cu8),
            AddressingMode::Indirect(_) => Some(0x6Cu8),
            _ => None,
        }
    }

    /// Whether the addressing mode is one that JMP accepts.
    pub open spec fn legal(&self) -> bool {
        Self::opcode_of(self.0) is Some
    }

    /// The machine code: the opcode, then the operand bytes.
    pub open spec fn encoding(&self) -> Seq<u8> {
        seq![Self::opcode_of(self.0).unwrap()] + self.0.operand_bytes()
    }

    /// The program counter receives the target that the addressing mode names:
    /// the address itself for `Absolute`, the address stored there for
    /// `Indirect`. Nothing else changes.
    pub open spec fn effect(&self, s: State) -> State {
        s.jump(self.0.target(s.memory))
    }

    /// The opcode, or `None` where JMP does not accept the addressing
    /// mode.
    pub fn opcode(&self) -> (op: Option<u8>)
        ensures
            op == Self::opcode_of(self.0),
    {
        match self.0 {
            AddressingMode::Absolute(_) => Some(0x4C),
            AddressingMode::Indirect(_) => Some(0x6C),
            _ => None,
        }
    }

    /// Executes the instruction. The addressing mode must be one that JMP
    /// accepts.
    pub fn evaluate(&self, memory: &mut Memory, registers: &mut Registers)
        requires
            self.legal(),
        ensures
            State::of(*final(memory), *final(registers)) == self.effect(
                State::of(*old(memory), *old(registers)),
            ),
    {
        registers.pc.value = self.0.dest(memory);
    }

    /// The machine code of the instruction.
    pub fn render(&self) -> (bytes: Vec<u8>)
        requires
            self.legal(),
        ensures
            bytes@ == self.encoding(),
    {
        encode(self.opcode(), &self.0)
    }
}

/// JSR: jump to a subroutine.
#[derive(Clone, Copy, Debug, PartialEq, Eq, Structural)]
pub struct JSR(pub u16);

impl JSR {
    /// The machine code: the opcode, then the target with its low byte
    /// first.
    pub open spec fn encoding(&self) -> Seq<u8> {
        seq![0x20u8, (self.0 % 256) as u8, (self.0 / 256) as u8]
    }

    /// The address of the last byte of the instruction (program counter + 2,
    /// modulo 65536) is pushed, high byte first, so that its low byte lies
    /// at the lower stack address. The program counter then receives the
    /// target.
    pub open spec fn effect(&self, s: State) -> State {
        let last = (s.registers.pc.value + 2) % 65536;
        s.push((last / 256) as u8).push((last % 256) as u8).jump(self.0 as int)
    }

    /// Executes the instruction.
    pub fn evaluate(&self, memory: &mut Memory, registers: &mut Registers)
        ensures
            State::of(*final(memory), *final(registers)) == self.effect(
                State::of(*old(memory), *old(registers)),
            ),
    {
        let last = registers.pc.value.wrapping_add(2);
        push(memory, registers, (last / 256) as u8);
        push(memory, registers, (last % 256) as u8);
        registers.pc.value = self.0;
    }

    /// The machine code of the instruction.
    pub fn render(&self) -> (bytes: Vec<u8>)
        ensures
            bytes@ == self.encoding(),
    {
        let bytes = vec![0x20, (self.0 % 256) as u8, (self.0 / 256) as u8];
        assert(bytes@ =~= self.encoding());
        bytes
    }
}

/// RTS: return from a subroutine.
#[derive(Clone, Copy, Debug, PartialEq, Eq, Structural)]
pub struct RTS;

impl RTS {
    /// The machine code: the opcode alone.
    pub open spec fn encoding(&self) -> Seq<u8> {
        seq![0x60u8]
    }

    /// Two bytes are pulled off the stack, the low byte of an address first.
    /// The program counter receives that address plus one, modulo 65536.
    pub open spec fn effect(&self, s: State) -> State {
        let low = s.top();
        let high = s.pull().top();
        s.pull().pull().jump(word(low, high) + 1)
    }

    /// Executes the instruction.
    pub fn evaluate(&self, memory: &mut Memory, registers: &mut Registers)
        ensures
            State::of(*final(memory), *final(registers)) == self.effect(
                State::of(*old(memory), *old(registers)),
            ),
    {
        let low = pull(memory, registers);
        let high = pull(memory, registers);
        registers.pc.value = join_bytes(low, high).wrapping_add(1);
    }

    /// The machine code of the instruction.
    pub fn render(&self) -> (bytes: Vec<u8>)
        ensures
            bytes@ == self.encoding(),
    {
        let bytes = vec![0x60];
        assert(bytes@ =~= self.encoding());
        bytes
    }
}

/// RTI: return from an interrupt.
#[derive(Clone, Copy, Debug, PartialEq, Eq, Structural)]
pub struct RTI;

impl RTI {
    /// The machine code: the opcode alone.
    pub open spec fn encoding(&self) -> Seq<u8> {
        seq![0x40u8]
    }

    /// Three bytes are pulled off the stack: the packed flags, then the low and
    /// the high byte of an address. The flags are replaced by the unpacked byte
    /// and the program counter receives the address.
    pub open spec fn effect(&self, s: State) -> State {
        let flags = s.top();
        let low = s.pull().top();
        let high = s.pull().pull().top();
        State {
            registers: Registers {
                flags: Flags::unpacked(flags),
                ..s.pull().pull().pull().registers
            },
            ..s
        }.jump(word(low, high) as int)
    }

    /// Executes the instruction.
    pub fn evaluate(&self, memory: &mut Memory, registers: &mut Registers)
        ensures
            State::of(*final(memory), *final(registers)) == self.effect(
                State::of(*old(memory), *old(registers)),
            ),
    {
        let flags = pull(memory, registers);
        registers.flags.write(flags);
        let low = pull(memory, registers);
        let high = pull(memory, registers);
        registers.pc.value = join_bytes(low, high);
    }

    /// The machine code of the instruction.
    pub fn render(&self) -> (bytes: Vec<u8>)
        ensures
            bytes@ == self.encoding(),
    {
        let bytes = vec![0x40];
        assert(bytes@ =~= self.encoding());
        bytes
    }
}

/// BRK: break.
#[derive(Clone, Copy, Debug, PartialEq, Eq, Structural)]
pub struct BRK;

impl BRK {
    /// The machine code: the opcode alone.
    pub open spec fn encoding(&self) -> Seq<u8> {
        seq![0x00u8]
    }

    /// Interrupt dispatch is not modelled: the program counter moves past the
    /// opcode and nothing else changes.
    pub open spec fn effect(&self, s: State) -> State {
        s.advance(1)
    }

    /// Executes the instruction.
    pub fn evaluate(&self, memory: &mut Memory, registers: &mut Registers)
        ensures
            State::of(*final(memory), *final(registers)) == self.effect(
                State::of(*old(memory), *old(registers)),
            ),
    {
        registers.advance(1);
    }

    /// The machine code of the instruction.
    pub fn render(&self) -> (bytes: Vec<u8>)
        ensures
            bytes@ == self.encoding(),
    {
        let bytes = vec![0x00];
        assert(bytes@ =~= self.encoding());
        bytes
    }
}

/// NOP: no operation.
#[derive(Clone, Copy, Debug, PartialEq, Eq, Structural)]
pub struct NOP;

impl NOP {
    /// The machine code: the opcode alone.
    pub open spec fn encoding(&self) -> Seq<u8> {
        seq![0xEAu8]
    }

    /// The program counter moves past the instruction; nothing else changes.
    pub open spec fn effect(&self, s: State) -> State {
        s.advance(1)
    }

    /// Executes the instruction.
    pub fn evaluate(&self, memory: &mut Memory, registers: &mut Registers)
        ensures
            State::of(*final(memory), *final(registers)) == self.effect(
                State::of(*old(memory), *old(registers)),
            ),
    {
        registers.advance(1);
    }

    /// The machine code of the instruction.
    pub fn render(&self) -> (bytes: Vec<u8>)
        ensures
            bytes@ == self.encoding(),
    {
        let bytes = vec![0xEA];
        assert(bytes@ =~= self.encoding());
        bytes
    }
}

/// A jump to an absolute address sets the program counter to that address,
/// wherever it was before, and changes nothing else.
pub proof fn lemma_jump_absolute(target: u16, s: State)
    ensures
        JMP(AddressingMode::Absolute(target)).legal(),
        JMP(AddressingMode::Absolute(target)).effect(s).registers.pc.value == target,
        JMP(AddressingMode::Absolute(target)).effect(s) == s.jump(target as int),
{
}

/// A return undoes a call: after JSR and then RTS the program counter is
/// three bytes further than before the call, at the instruction that
/// follows the JSR (wrapping at the end of the address space), and every
/// other register, the stack pointer among them, is as it was.
pub proof fn lemma_return_after_call(target: u16, s: State)
    requires
        s.wf(),
    ensures
        JSR(target).effect(s).registers.pc.value == target,
        RTS.effect(JSR(target).effect(s)).registers == s.registers.advanced(3),
{
}

/// A branch that is not taken moves the program counter by two; one that is
/// taken moves it by two plus the displacement, which may be negative. Both
/// wrap at the end of the address space.
pub proof fn lemma_branch_target(s: State, taken: bool, displacement: i8)
    ensures
        branched(s, taken, displacement).memory == s.memory,
        branched(s, false, displacement).registers.pc.value == (s.registers.pc.value + 2) % 65536,
        branched(s, true, displacement).registers.pc.value == (s.registers.pc.value + 2
            + displacement) % 65536,
{
}

} // verus!
