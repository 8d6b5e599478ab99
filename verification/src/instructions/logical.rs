//! Bitwise logic, the bit test, and the shifts and rotations.

use super::addressing::AddressingMode;
use super::alu::{
    rotate_left, rotate_right, rotated_left, rotated_right, shift_left, shift_right, shifted_left,
    shifted_right,
};
use super::encode;
use crate::memory::Memory;
use crate::registers::{Accumulator, Flags, Registers};
use crate::state::State;
use vstd::prelude::*;

verus! {

/// AND: bitwise AND of the accumulator with the operand.
#[derive(Clone, Copy, Debug, PartialEq, Eq, Structural)]
pub struct AND(pub AddressingMode);

impl AND {
    /// The opcode of AND in each addressing mode that it accepts.
    pub open spec fn opcode_of(mode: AddressingMode) -> Option<u8> {
        match mode {
            AddressingMode::Immediate(_) => Some(0x29u8),
            AddressingMode::ZeroPage(_) => Some(0x25u8),
            AddressingMode::ZeroPageX(_) => Some(0x35u8),
            AddressingMode::Absolute(_) => Some(0x2Du8),
            AddressingMode::AbsoluteX(_) => Some(0x3Du8),
            AddressingMode::AbsoluteY(_) => Some(0x39u8),
            AddressingMode::IndexedIndirect(_) => Some(0x21u8),
            AddressingMode::IndirectIndexed(_) => Some(0x31u8),
            _ => None,
        }
    }

    /// Whether the addressing mode is one that AND accepts.
    pub open spec fn legal(&self) -> bool {
        Self::opcode_of(self.0) is Some
    }

    /// The machine code: the opcode, then the operand bytes.
    pub open spec fn encoding(&self) -> Seq<u8> {
        seq![Self::opcode_of(self.0).unwrap()] + self.0.operand_bytes()
    }

    /// The accumulator receives accumulator AND operand. No flag changes. The
    /// program counter moves past the instruction.
    pub open spec fn effect(&self, s: State) -> State {
        State {
            registers: Registers {
                acc: Accumulator { value: s.registers.acc.value & self.0.operand(s) },
                ..s.registers
            },
            ..s
        }.advance(1 + self.0.operand_len())
    }

    /// The opcode, or `None` where AND does not accept the addressing
    /// mode.
    pub fn opcode(&self) -> (op: Option<u8>)
        ensures
            op == Self::opcode_of(self.0),
    {
        match self.0 {
            AddressingMode::Immediate(_) => Some(0x29),
            AddressingMode::ZeroPage(_) => Some(0x25),
            AddressingMode::ZeroPageX(_) => Some(0x35),
            AddressingMode::Absolute(_) => Some(0x2D),
            AddressingMode::AbsoluteX(_) => Some(0x3D),
            AddressingMode::AbsoluteY(_) => Some(0x39),
            AddressingMode::IndexedIndirect(_) => Some(0x21),
            AddressingMode::IndirectIndexed(_) => Some(0x31),
            _ => None,
        }
    }

    /// Executes the instruction. The addressing mode must be one that AND
    /// accepts.
    pub fn evaluate(&self, memory: &mut Memory, registers: &mut Registers)
        requires
            self.legal(),
        ensures
            State::of(*final(memory), *final(registers)) == self.effect(
                State::of(*old(memory), *old(registers)),
            ),
    {
        let value = self.0.read(memory, registers);
        registers.acc.value = registers.acc.value & value;
        registers.advance(1 + self.0.length());
    }

    /// The machine code of the instruction.
    pub fn render(&self) -> (bytes: Vec<u8>)
        requires
            self.legal(),
        ensures
            bytes@ == self.encoding(),
    {
        encode(self.opcode(), &self.0)
    }
}

/// ORA: bitwise OR of the operand with the accumulator, stored in the operand.
#[derive(Clone, Copy, Debug, PartialEq, Eq, Structural)]
pub struct ORA(pub AddressingMode);

impl ORA {
    /// The opcode of ORA in each addressing mode that it accepts.
    pub open spec fn opcode_of(mode: AddressingMode) -> Option<u8> {
        match mode {
            AddressingMode::Immediate(_) => Some(0x09u8),
            AddressingMode::ZeroPage(_) => Some(0x05u8),
            AddressingMode::ZeroPageX(_) => Some(0x15u8),
            AddressingMode::Absolute(_) => Some(0x0Du8),
            AddressingMode::AbsoluteX(_) => Some(0x1Du8),
            AddressingMode::AbsoluteY(_) => Some(0x19u8),
            AddressingMode::IndexedIndirect(_) => Some(0x01u8),
            AddressingMode::IndirectIndexed(_) => Some(0x11u8),
            _ => None,
        }
    }

    /// Whether the addressing mode is one that ORA accepts.
    pub open spec fn legal(&self) -> bool {
        Self::opcode_of(self.0) is Some
    }

    /// The machine code: the opcode, then the operand bytes.
    pub open spec fn encoding(&self) -> Seq<u8> {
        seq![Self::opcode_of(self.0).unwrap()] + self.0.operand_bytes()
    }

    /// The operand is replaced by operand OR accumulator, through the
    /// addressing mode: with a memory operand the result goes to memory and the
    /// accumulator keeps its value. No flag changes. The program counter moves
    /// past the instruction. With an `Immediate` operand there is nowhere to
    /// store the result, so the instruction can be encoded and decoded but not
    /// executed.
    pub open spec fn effect(&self, s: State) -> State {
        self.0.store(s, self.0.operand(s) | s.registers.acc.value).advance(
            1 + self.0.operand_len(),
        )
    }

    /// The opcode, or `None` where ORA does not accept the addressing
    /// mode.
    pub fn opcode(&self) -> (op: Option<u8>)
        ensures
            op == Self::opcode_of(self.0),
    {
        match self.0 {
            AddressingMode::Immediate(_) => Some(0x09),
            AddressingMode::ZeroPage(_) => Some(0x05),
            AddressingMode::ZeroPageX(_) => Some(0x15),
            AddressingMode::Absolute(_) => Some(0x0D),
            AddressingMode::AbsoluteX(_) => Some(0x1D),
            AddressingMode::AbsoluteY(_) => Some(0x19),
            AddressingMode::IndexedIndirect(_) => Some(0x01),
            AddressingMode::IndirectIndexed(_) => Some(0x11),
            _ => None,
        }
    }

    /// Executes the instruction. The addressing mode must be one that ORA
    /// accepts and that can be written.
    pub fn evaluate(&self, memory: &mut Memory, registers: &mut Registers)
        requires
            self.legal(),
            self.0.can_write(),
        ensures
            State::of(*final(memory), *final(registers)) == self.effect(
                State::of(*old(memory), *old(registers)),
            ),
    {
        let value = self.0.read(memory, registers);
        let result = value | registers.acc.value;
        self.0.write(memory, registers, result);
        registers.advance(1 + self.0.length());
    }

    /// The machine code of the instruction.
    pub fn render(&self) -> (bytes: Vec<u8>)
        requires
            self.legal(),
        ensures
            bytes@ == self.encoding(),
    {
        encode(self.opcode(), &self.0)
    }
}

/// EOR: bitwise exclusive OR of the operand with the accumulator, stored in the
/// operand.
#[derive(Clone, Copy, Debug, PartialEq, Eq, Structural)]
pub struct EOR(pub AddressingMode);

impl EOR {
    /// The opcode of EOR in each addressing mode that it accepts.
    pub open spec fn opcode_of(mode: AddressingMode) -> Option<u8> {
        match mode {
            AddressingMode::Immediate(_) => Some(0x49u8),
            AddressingMode::ZeroPage(_) => Some(0x45u8),
            AddressingMode::ZeroPageX(_) => Some(0x55u8),
            AddressingMode::Absolute(_) => Some(0x4Du8),
            AddressingMode::AbsoluteX(_) => Some(0x5Du8),
            AddressingMode::AbsoluteY(_) => Some(0x59u8),
            AddressingMode::IndexedIndirect(_) => Some(0x41u8),
            AddressingMode::IndirectIndexed(_) => Some(0x51u8),
            _ => None,
        }
    }

    /// Whether the addressing mode is one that EOR accepts.
    pub open spec fn legal(&self) -> bool {
        Self::opcode_of(self.0) is Some
    }

    /// The machine code: the opcode, then the operand bytes.
    pub open spec fn encoding(&self) -> Seq<u8> {
        seq![Self::opcode_of(self.0).unwrap()] + self.0.operand_bytes()
    }

    /// The operand is replaced by operand exclusive OR accumulator, through the
    /// addressing mode: with a memory operand the result goes to memory and the
    /// accumulator keeps its value. No flag changes. The program counter moves
    /// past the instruction. With an `Immediate` operand there is nowhere to
    /// store the result, so the instruction can be encoded and decoded but not
    /// executed.
    pub open spec fn effect(&self, s: State) -> State {
        self.0.store(s, self.0.operand(s) ^ s.registers.acc.value).advance(
            1 + self.0.operand_len(),
        )
    }

    /// The opcode, or `None` where EOR does not accept the addressing
    /// mode.
    pub fn opcode(&self) -> (op: Option<u8>)
        ensures
            op == Self::opcode_of(self.0),
    {
        match self.0 {
            AddressingMode::Immediate(_) => Some(0x49),
            AddressingMode::ZeroPage(_) => Some(0x45),
            AddressingMode::ZeroPageX(_) => Some(0x55),
            AddressingMode::Absolute(_) => Some(0x4D),
            AddressingMode::AbsoluteX(_) => Some(0x5D),
            AddressingMode::AbsoluteY(_) => Some(0x59),
            AddressingMode::IndexedIndirect(_) => Some(0x41),
            AddressingMode::IndirectIndexed(_) => Some(0x51),
            _ => None,
        }
    }

    /// Executes the instruction. The addressing mode must be one that EOR
    /// accepts and that can be written.
    pub fn evaluate(&self, memory: &mut Memory, registers: &mut Registers)
        requires
            self.legal(),
            self.0.can_write(),
        ensures
            State::of(*final(memory), *final(registers)) == self.effect(
                State::of(*old(memory), *old(registers)),
            ),
    {
        let value = self.0.read(memory, registers);
        let result = value ^ registers.acc.value;
        self.0.write(memory, registers, result);
        registers.advance(1 + self.0.length());
    }

    /// The machine code of the instruction.
    pub fn render(&self) -> (bytes: Vec<u8>)
        requires
            self.legal(),
        ensures
            bytes@ == self.encoding(),
    {
        encode(self.opcode(), &self.0)
    }
}

/// BIT: test bits of the operand against the accumulator.
#[derive(Clone, Copy, Debug, PartialEq, Eq, Structural)]
pub struct BIT(pub AddressingMode);

impl BIT {
    /// The opcode of BIT in each addressing mode that it accepts.
    pub open spec fn opcode_of(mode: AddressingMode) -> Option<u8> {
        match mode {
            AddressingMode::ZeroPage(_) => Some(0x24u8),
            AddressingMode::Absolute(_) => Some(0x2Cu8),
            _ => None,
        }
    }

    /// Whether the addressing mode is one that BIT accepts.
    pub open spec fn legal(&self) -> bool {
        Self::opcode_of(self.0) is Some
    }

    /// The machine code: the opcode, then the operand bytes.
    pub open spec fn encoding(&self) -> Seq<u8> {
        seq![Self::opcode_of(self.0).unwrap()] + self.0.operand_bytes()
    }

    /// Zero is set exactly when operand AND accumulator is zero; negative
    /// receives bit 7 of the operand and overflow bit 6. The accumulator keeps
    /// its value. The program counter moves past the instruction.
    pub open spec fn effect(&self, s: State) -> State {
        let m = self.0.operand(s);
        State {
            registers: Registers {
                flags: Flags {
                    zero: (m & s.registers.acc.value) == 0,
                    negative: m / 128 == 1,
                    overflow: (m / 64) % 2 == 1,
                    ..s.registers.flags
                },
                ..s.registers
            },
            ..s
        }.advance(1 + self.0.operand_len())
    }

    /// The opcode, or `None` where BIT does not accept the addressing
    /// mode.
    pub fn opcode(&self) -> (op: Option<u8>)
        ensures
            op == Self::opcode_of(self.0),
    {
        match self.0 {
            AddressingMode::ZeroPage(_) => Some(0x24),
            AddressingMode::Absolute(_) => Some(0x2C),
            _ => None,
        }
    }

    /// Executes the instruction. The addressing mode must be one that BIT
    /// accepts.
    pub fn evaluate(&self, memory: &mut Memory, registers: &mut Registers)
        requires
            self.legal(),
        ensures
            State::of(*final(memory), *final(registers)) == self.effect(
                State::of(*old(memory), *old(registers)),
            ),
    {
        let value = self.0.read(memory, registers);
        registers.flags.zero = (value & registers.acc.value) == 0;
        registers.flags.negative = value / 128 == 1;
        registers.flags.overflow = (value / 64) % 2 == 1;
        registers.advance(1 + self.0.length());
    }

    /// The machine code of the instruction.
    pub fn render(&self) -> (bytes: Vec<u8>)
        requires
            self.legal(),
        ensures
            bytes@ == self.encoding(),
    {
        encode(self.opcode(), &self.0)
    }
}

/// ASL: shift the operand left by one bit.
#[derive(Clone, Copy, Debug, PartialEq, Eq, Structural)]
pub struct ASL(pub AddressingMode);

impl ASL {
    /// The opcode of ASL in each addressing mode that it accepts.
    pub open spec fn opcode_of(mode: AddressingMode) -> Option<u8> {
        match mode {
            AddressingMode::Accumulator => Some(0x0Au8),
            AddressingMode::ZeroPage(_) => Some(0x06u8),
            AddressingMode::ZeroPageX(_) => Some(0x16u8),
            AddressingMode::Absolute(_) => Some(0x0Eu8),
            AddressingMode::AbsoluteX(_) => Some(0x1Eu8),
            _ => None,
        }
    }

    /// Whether the addressing mode is one that ASL accepts.
    pub open spec fn legal(&self) -> bool {
        Self::opcode_of(self.0) is Some
    }

    /// The machine code: the opcode, then the operand bytes.
    pub open spec fn encoding(&self) -> Seq<u8> {
        seq![Self::opcode_of(self.0).unwrap()] + self.0.operand_bytes()
    }

    /// The operand is replaced, through the addressing mode, by its value
    /// shifted left by one bit, a zero coming in at the bottom. No flag
    /// changes. The program counter moves past the instruction.
    pub open spec fn effect(&self, s: State) -> State {
        self.0.store(s, shifted_left(self.0.operand(s))).advance(1 + self.0.operand_len())
    }

    /// The opcode, or `None` where ASL does not accept the addressing
    /// mode.
    pub fn opcode(&self) -> (op: Option<u8>)
        ensures
            op == Self::opcode_of(self.0),
    {
        match self.0 {
            AddressingMode::Accumulator => Some(0x0A),
            AddressingMode::ZeroPage(_) => Some(0x06),
            AddressingMode::ZeroPageX(_) => Some(0x16),
            AddressingMode::Absolute(_) => Some(0x0E),
            AddressingMode::AbsoluteX(_) => Some(0x1E),
            _ => None,
        }
    }

    /// Executes the instruction. The addressing mode must be one that ASL
    /// accepts.
    pub fn evaluate(&self, memory: &mut Memory, registers: &mut Registers)
        requires
            self.legal(),
        ensures
            State::of(*final(memory), *final(registers)) == self.effect(
                State::of(*old(memory), *old(registers)),
            ),
    {
        let value = self.0.read(memory, registers);
        self.0.write(memory, registers, shift_left(value));
        registers.advance(1 + self.0.length());
    }

    /// The machine code of the instruction.
    pub fn render(&self) -> (bytes: Vec<u8>)
        requires
            self.legal(),
        ensures
            bytes@ == self.encoding(),
    {
        encode(self.opcode(), &self.0)
    }
}

/// LSR: shift the operand right by one bit.
#[derive(Clone, Copy, Debug, PartialEq, Eq, Structural)]
pub struct LSR(pub AddressingMode);

impl LSR {
    /// The opcode of LSR in each addressing mode that it accepts.
    pub open spec fn opcode_of(mode: AddressingMode) -> Option<u8> {
        match mode {
            AddressingMode::Accumulator => Some(0x4Au8),
            AddressingMode::ZeroPage(_) => Some(0x46u8),
            AddressingMode::ZeroPageX(_) => Some(0x56u8),
            AddressingMode::Absolute(_) => Some(0x4Eu8),
            AddressingMode::AbsoluteX(_) => Some(0x5Eu8),
            _ => None,
        }
    }

    /// Whether the addressing mode is one that LSR accepts.
    pub open spec fn legal(&self) -> bool {
        Self::opcode_of(self.0) is Some
    }

    /// The machine code: the opcode, then the operand bytes.
    pub open spec fn encoding(&self) -> Seq<u8> {
        seq![Self::opcode_of(self.0).unwrap()] + self.0.operand_bytes()
    }

    /// The operand is replaced, through the addressing mode, by its value
    /// shifted right by one bit, a zero coming in at the top. No flag changes.
    /// The program counter moves past the instruction.
    pub open spec fn effect(&self, s: State) -> State {
        self.0.store(s, shifted_right(self.0.operand(s))).advance(1 + self.0.operand_len())
    }

    /// The opcode, or `None` where LSR does not accept the addressing
    /// mode.
    pub fn opcode(&self) -> (op: Option<u8>)
        ensures
            op == Self::opcode_of(self.0),
    {
        match self.0 {
            AddressingMode::Accumulator => Some(0x4A),
            AddressingMode::ZeroPage(_) => Some(0x46),
            AddressingMode::ZeroPageX(_) => Some(0x56),
            AddressingMode::Absolute(_) => Some(0x4E),
            AddressingMode::AbsoluteX(_) => Some(0x5E),
            _ => None,
        }
    }

    /// Executes the instruction. The addressing mode must be one that LSR
    /// accepts.
    pub fn evaluate(&self, memory: &mut Memory, registers: &mut Registers)
        requires
            self.legal(),
        ensures
            State::of(*final(memory), *final(registers)) == self.effect(
                State::of(*old(memory), *old(registers)),
            ),
    {
        let value = self.0.read(memory, registers);
        self.0.write(memory, registers, shift_right(value));
        registers.advance(1 + self.0.length());
    }

    /// The machine code of the instruction.
    pub fn render(&self) -> (bytes: Vec<u8>)
        requires
            self.legal(),
        ensures
            bytes@ == self.encoding(),
    {
        encode(self.opcode(), &self.0)
    }
}

/// ROL: rotate the operand left by one bit.
#[derive(Clone, Copy, Debug, PartialEq, Eq, Structural)]
pub struct ROL(pub AddressingMode);

impl ROL {
    /// The opcode of ROL in each addressing mode that it accepts.
    pub open spec fn opcode_of(mode: AddressingMode) -> Option<u8> {
        match mode {
            AddressingMode::Accumulator => Some(0x2Au8),
            AddressingMode::ZeroPage(_) => Some(0x26u8),
            AddressingMode::ZeroPageX(_) => Some(0x36u8),
            AddressingMode::Absolute(_) => Some(0x2Eu8),
            AddressingMode::AbsoluteX(_) => Some(0x3Eu8),
            _ => None,
        }
    }

    /// Whether the addressing mode is one that ROL accepts.
    pub open spec fn legal(&self) -> bool {
        Self::opcode_of(self.0) is Some
    }

    /// The machine code: the opcode, then the operand bytes.
    pub open spec fn encoding(&self) -> Seq<u8> {
        seq![Self::opcode_of(self.0).unwrap()] + self.0.operand_bytes()
    }

    /// The operand is replaced, through the addressing mode, by its value
    /// rotated left by one bit among its own eight bits: bit 7 comes back in as
    /// bit 0, and the carry flag takes no part. No flag changes. The program
    /// counter moves past the instruction.
    pub open spec fn effect(&self, s: State) -> State {
        self.0.store(s, rotated_left(self.0.operand(s))).advance(1 + self.0.operand_len())
    }

    /// The opcode, or `None` where ROL does not accept the addressing
    /// mode.
    pub fn opcode(&self) -> (op: Option<u8>)
        ensures
            op == Self::opcode_of(self.0),
    {
        match self.0 {
            AddressingMode::Accumulator => Some(0x2A),
            AddressingMode::ZeroPage(_) => Some(0x26),
            AddressingMode::ZeroPageX(_) => Some(0x36),
            AddressingMode::Absolute(_) => Some(0x2E),
            AddressingMode::AbsoluteX(_) => Some(0x3E),
            _ => None,
        }
    }

    /// Executes the instruction. The addressing mode must be one that ROL
    /// accepts.
    pub fn evaluate(&self, memory: &mut Memory, registers: &mut Registers)
        requires
            self.legal(),
        ensures
            State::of(*final(memory), *final(registers)) == self.effect(
                State::of(*old(memory), *old(registers)),
            ),
    {
        let value = self.0.read(memory, registers);
        self.0.write(memory, registers, rotate_left(value));
        registers.advance(1 + self.0.length());
    }

    /// The machine code of the instruction.
    pub fn render(&self) -> (bytes: Vec<u8>)
        requires
            self.legal(),
        ensures
            bytes@ == self.encoding(),
    {
        encode(self.opcode(), &self.0)
    }
}

/// ROR: rotate the operand right by one bit.
#[derive(Clone, Copy, Debug, PartialEq, Eq, Structural)]
pub struct ROR(pub AddressingMode);

impl ROR {
    /// The opcode of ROR in each addressing mode that it accepts.
    pub open spec fn opcode_of(mode: AddressingMode) -> Option<u8> {
        match mode {
            AddressingMode::Accumulator => Some(0x6Au8),
            AddressingMode::ZeroPage(_) => Some(0x66u8),
            AddressingMode::ZeroPageX(_) => Some(0x76u8),
            AddressingMode::Absolute(_) => Some(0x6Eu8),
            AddressingMode::AbsoluteX(_) => Some(0x7Eu8),
            _ => None,
        }
    }

    /// Whether the addressing mode is one that ROR accepts.
    pub open spec fn legal(&self) -> bool {
        Self::opcode_of(self.0) is Some
    }

    /// The machine code: the opcode, then the operand bytes.
    pub open spec fn encoding(&self) -> Seq<u8> {
        seq![Self::opcode_of(self.0).unwrap()] + self.0.operand_bytes()
    }

    /// The operand is replaced, through the addressing mode, by its value
    /// rotated right by one bit among its own eight bits: bit 0 comes back in
    /// as bit 7, and the carry flag takes no part. No flag changes. The program
    /// counter moves past the instruction.
    pub open spec fn effect(&self, s: State) -> State {
        self.0.store(s, rotated_right(self.0.operand(s))).advance(1 + self.0.operand_len())
    }

    /// The opcode, or `None` where ROR does not accept the addressing
    /// mode.
    pub fn opcode(&self) -> (op: Option<u8>)
        ensures
            op == Self::opcode_of(self.0),
    {
        match self.0 {
            AddressingMode::Accumulator => Some(0x6A),
            AddressingMode::ZeroPage(_) => Some(0x66),
            AddressingMode::ZeroPageX(_) => Some(0x76),
            AddressingMode::Absolute(_) => Some(0x6E),
            AddressingMode::AbsoluteX(_) => Some(0x7E),
            _ => None,
        }
    }

    /// Executes the instruction. The addressing mode must be one that ROR
    /// accepts.
    pub fn evaluate(&self, memory: &mut Memory, registers: &mut Registers)
        requires
            self.legal(),
        ensures
            State::of(*final(memory), *final(registers)) == self.effect(
                State::of(*old(memory), *old(registers)),
            ),
    {
        let value = self.0.read(memory, registers);
        self.0.write(memory, registers, rotate_right(value));
        registers.advance(1 + self.0.length());
    }

    /// The machine code of the instruction.
    pub fn render(&self) -> (bytes: Vec<u8>)
        requires
            self.legal(),
        ensures
            bytes@ == self.encoding(),
    {
        encode(self.opcode(), &self.0)
    }
}

} // verus!
