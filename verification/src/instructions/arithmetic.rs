//! Arithmetic: addition and subtraction on the accumulator, and the
//! increments and decrements of memory and of the index registers.

use super::addressing::AddressingMode;
use super::alu::{signed, to_signed};
use super::encode;
use crate::memory::Memory;
use crate::registers::{flag_bit, Accumulator, Flags, IndexX, IndexY, Registers};
use crate::state::State;
use vstd::prelude::*;

verus! {

/// ADC: add the operand and the carry to the accumulator.
#[derive(Clone, Copy, Debug, PartialEq, Eq, Structural)]
pub struct ADC(pub AddressingMode);

impl ADC {
    /// The opcode of ADC in each addressing mode that it accepts.
    pub open spec fn opcode_of(mode: AddressingMode) -> Option<u8> {
        match mode {
            AddressingMode::Immediate(_) => Some(0x69u8),
            AddressingMode::ZeroPage(_) => Some(0x65u8),
            AddressingMode::ZeroPageX(_) => Some(0x75u8),
            AddressingMode::Absolute(_) => Some(0x6Du8),
            AddressingMode::AbsoluteX(_) => Some(0x7Du8),
            AddressingMode::AbsoluteY(_) => Some(0x79u8),
            AddressingMode::IndexedIndirect(_) => Some(0x61u8),
            AddressingMode::IndirectIndexed(_) => Some(0x71u8),
            _ => None,
        }
    }

    /// Whether the addressing mode is one that ADC accepts.
    pub open spec fn legal(&self) -> bool {
        Self::opcode_of(self.0) is Some
    }

    /// The machine code: the opcode, then the operand bytes.
    pub open spec fn encoding(&self) -> Seq<u8> {
        seq![Self::opcode_of(self.0).unwrap()] + self.0.operand_bytes()
    }

    /// The accumulator receives accumulator + operand + carry, modulo 256.
    /// Carry is set exactly when the unsigned sum exceeds 255, overflow exactly
    /// when the sum of the two's-complement readings (plus carry) leaves
    /// `-128..=127`; zero and negative follow the result. The program counter
    /// moves past the instruction.
    pub open spec fn effect(&self, s: State) -> State {
        let a = s.registers.acc.value;
        let m = self.0.operand(s);
        let c = flag_bit(s.registers.flags.carry, 1);
        let result = ((a + m + c) % 256) as u8;
        State {
            registers: Registers {
                acc: Accumulator { value: result },
                flags: Flags {
                    carry: a + m + c > 255,
                    zero: result == 0,
                    overflow: !(-128 <= signed(a) + signed(m) + c <= 127),
                    negative: result >= 128,
                    ..s.registers.flags
                },
                ..s.registers
            },
            ..s
        }.advance(1 + self.0.operand_len())
    }

    /// The opcode, or `None` where ADC does not accept the addressing
    /// mode.
    pub fn opcode(&self) -> (op: Option<u8>)
        ensures
            op == Self::opcode_of(self.0),
    {
        match self.0 {
            AddressingMode::Immediate(_) => Some(0x69),
            AddressingMode::ZeroPage(_) => Some(0x65),
            AddressingMode::ZeroPageX(_) => Some(0x75),
            AddressingMode::Absolute(_) => Some(0x6D),
            AddressingMode::AbsoluteX(_) => Some(0x7D),
            AddressingMode::AbsoluteY(_) => Some(0x79),
            AddressingMode::IndexedIndirect(_) => Some(0x61),
            AddressingMode::IndirectIndexed(_) => Some(0x71),
            _ => None,
        }
    }

    /// Executes the instruction. The addressing mode must be one that ADC
    /// accepts.
    pub fn evaluate(&self, memory: &mut Memory, registers: &mut Registers)
        requires
            self.legal(),
        ensures
            State::of(*final(memory), *final(registers)) == self.effect(
                State::of(*old(memory), *old(registers)),
            ),
    {
        let acc = registers.acc.value;
        let value = self.0.read(memory, registers);
        let carry: u8 = if registers.flags.carry { 1 } else { 0 };
        let signed_carry: i16 = if registers.flags.carry { 1 } else { 0 };
        let sum: u16 = u16::from(acc) + u16::from(value) + u16::from(carry);
        let signed_sum: i16 = i16::from(to_signed(acc)) + i16::from(to_signed(value))
            + signed_carry;
        let result: u8 = acc.wrapping_add(value).wrapping_add(carry);
        registers.acc.value = result;
        registers.flags.carry = sum > 255;
        registers.flags.zero = result == 0;
        registers.flags.overflow = signed_sum < -128 || signed_sum > 127;
        registers.flags.negative = result >= 128;
        registers.advance(1 + self.0.length());
    }

    /// The machine code of the instruction.
    pub fn render(&self) -> (bytes: Vec<u8>)
        requires
            self.legal(),
        ensures
            bytes@ == self.encoding(),
    {
        encode(self.opcode(), &self.0)
    }
}

/// SBC: subtract the operand from the accumulator.
#[derive(Clone, Copy, Debug, PartialEq, Eq, Structural)]
pub struct SBC(pub AddressingMode);

impl SBC {
    /// The opcode of SBC in each addressing mode that it accepts.
    pub open spec fn opcode_of(mode: AddressingMode) -> Option<u8> {
        match mode {
            AddressingMode::Immediate(_) => Some(0xE9u8),
            AddressingMode::ZeroPage(_) => Some(0xE5u8),
            AddressingMode::ZeroPageX(_) => Some(0xF5u8),
            AddressingMode::Absolute(_) => Some(0xEDu8),
            AddressingMode::AbsoluteX(_) => Some(0xFDu8),
            AddressingMode::AbsoluteY(_) => Some(0xF9u8),
            AddressingMode::IndexedIndirect(_) => Some(0xE1u8),
            AddressingMode::IndirectIndexed(_) => Some(0xF1u8),
            _ => None,
        }
    }

    /// Whether the addressing mode is one that SBC accepts.
    pub open spec fn legal(&self) -> bool {
        Self::opcode_of(self.0) is Some
    }

    /// The machine code: the opcode, then the operand bytes.
    pub open spec fn encoding(&self) -> Seq<u8> {
        seq![Self::opcode_of(self.0).unwrap()] + self.0.operand_bytes()
    }

    /// The accumulator receives accumulator - operand, modulo 256; the carry
    /// flag is not consumed as a borrow. Carry is set exactly when no borrow
    /// occurs (accumulator >= operand, unsigned), overflow exactly when the
    /// difference of the two's-complement readings leaves `-128..=127`; zero
    /// and negative follow the result. The program counter moves past the
    /// instruction.
    pub open spec fn effect(&self, s: State) -> State {
        let a = s.registers.acc.value;
        let m = self.0.operand(s);
        let result = ((a - m) % 256) as u8;
        State {
            registers: Registers {
                acc: Accumulator { value: result },
                flags: Flags {
                    carry: a >= m,
                    zero: result == 0,
                    overflow: !(-128 <= signed(a) - signed(m) <= 127),
                    negative: result >= 128,
                    ..s.registers.flags
                },
                ..s.registers
            },
            ..s
        }.advance(1 + self.0.operand_len())
    }

    /// The opcode, or `None` where SBC does not accept the addressing
    /// mode.
    pub fn opcode(&self) -> (op: Option<u8>)
        ensures
            op == Self::opcode_of(self.0),
    {
        match self.0 {
            AddressingMode::Immediate(_) => Some(0xE9),
            AddressingMode::ZeroPage(_) => Some(0xE5),
            AddressingMode::ZeroPageX(_) => Some(0xF5),
            AddressingMode::Absolute(_) => Some(0xED),
            AddressingMode::AbsoluteX(_) => Some(0xFD),
            AddressingMode::AbsoluteY(_) => Some(0xF9),
            AddressingMode::IndexedIndirect(_) => Some(0xE1),
            AddressingMode::IndirectIndexed(_) => Some(0xF1),
            _ => None,
        }
    }

    /// Executes the instruction. The addressing mode must be one that SBC
    /// accepts.
    pub fn evaluate(&self, memory: &mut Memory, registers: &mut Registers)
        requires
            self.legal(),
        ensures
            State::of(*final(memory), *final(registers)) == self.effect(
                State::of(*old(memory), *old(registers)),
            ),
    {
        let acc = registers.acc.value;
        let value = self.0.read(memory, registers);
        let signed_difference: i16 = i16::from(to_signed(acc)) - i16::from(to_signed(value));
        let result: u8 = acc.wrapping_sub(value);
        registers.acc.value = result;
        registers.flags.carry = acc >= value;
        registers.flags.zero = result == 0;
        registers.flags.overflow = signed_difference < -128 || signed_difference > 127;
        registers.flags.negative = result >= 128;
        registers.advance(1 + self.0.length());
    }

    /// The machine code of the instruction.
    pub fn render(&self) -> (bytes: Vec<u8>)
        requires
            self.legal(),
        ensures
            bytes@ == self.encoding(),
    {
        encode(self.opcode(), &self.0)
    }
}

/// INC: add one to the operand in place.
#[derive(Clone, Copy, Debug, PartialEq, Eq, Structural)]
pub struct INC(pub AddressingMode);

impl INC {
    /// The opcode of INC in each addressing mode that it accepts.
    pub open spec fn opcode_of(mode: AddressingMode) -> Option<u8> {
        match mode {
            AddressingMode::ZeroPage(_) => Some(0xE6u8),
            AddressingMode::ZeroPageX(_) => Some(0xF6u8),
            AddressingMode::Absolute(_) => Some(0xEEu8),
            AddressingMode::AbsoluteX(_) => Some(0xFEu8),
            _ => None,
        }
    }

    /// Whether the addressing mode is one that INC accepts.
    pub open spec fn legal(&self) -> bool {
        Self::opcode_of(self.0) is Some
    }

    /// The machine code: the opcode, then the operand bytes.
    pub open spec fn encoding(&self) -> Seq<u8> {
        seq![Self::opcode_of(self.0).unwrap()] + self.0.operand_bytes()
    }

    /// The operand is replaced by operand + 1, modulo 256, through the
    /// addressing mode. No flag changes. The program counter moves past the
    /// instruction.
    pub open spec fn effect(&self, s: State) -> State {
        self.0.store(s, ((self.0.operand(s) + 1) % 256) as u8).advance(1 + self.0.operand_len())
    }

    /// The opcode, or `None` where INC does not accept the addressing
    /// mode.
    pub fn opcode(&self) -> (op: Option<u8>)
        ensures
            op == Self::opcode_of(self.0),
    {
        match self.0 {
            AddressingMode::ZeroPage(_) => Some(0xE6),
            AddressingMode::ZeroPageX(_) => Some(0xF6),
            AddressingMode::Absolute(_) => Some(0xEE),
            AddressingMode::AbsoluteX(_) => Some(0xFE),
            _ => None,
        }
    }

    /// Executes the instruction. The addressing mode must be one that INC
    /// accepts.
    pub fn evaluate(&self, memory: &mut Memory, registers: &mut Registers)
        requires
            self.legal(),
        ensures
            State::of(*final(memory), *final(registers)) == self.effect(
                State::of(*old(memory), *old(registers)),
            ),
    {
        let value = self.0.read(memory, registers);
        self.0.write(memory, registers, value.wrapping_add(1));
        registers.advance(1 + self.0.length());
    }

    /// The machine code of the instruction.
    pub fn render(&self) -> (bytes: Vec<u8>)
        requires
            self.legal(),
        ensures
            bytes@ == self.encoding(),
    {
        encode(self.opcode(), &self.0)
    }
}

/// DEC: subtract one from the operand in place.
#[derive(Clone, Copy, Debug, PartialEq, Eq, Structural)]
pub struct DEC(pub AddressingMode);

impl DEC {
    /// The opcode of DEC in each addressing mode that it accepts.
    pub open spec fn opcode_of(mode: AddressingMode) -> Option<u8> {
        match mode {
            AddressingMode::ZeroPage(_) => Some(0xC6u8),
            AddressingMode::ZeroPageX(_) => Some(0xD6u8),
            AddressingMode::Absolute(_) => Some(0xCEu8),
            AddressingMode::AbsoluteX(_) => Some(0xDEu8),
            _ => None,
        }
    }

    /// Whether the addressing mode is one that DEC accepts.
    pub open spec fn legal(&self) -> bool {
        Self::opcode_of(self.0) is Some
    }

    /// The machine code: the opcode, then the operand bytes.
    pub open spec fn encoding(&self) -> Seq<u8> {
        seq![Self::opcode_of(self.0).unwrap()] + self.0.operand_bytes()
    }

    /// The operand is replaced by operand - 1, modulo 256, through the
    /// addressing mode. No flag changes. The program counter moves past the
    /// instruction.
    pub open spec fn effect(&self, s: State) -> State {
        self.0.store(s, ((self.0.operand(s) - 1) % 256) as u8).advance(1 + self.0.operand_len())
    }

    /// The opcode, or `None` where DEC does not accept the addressing
    /// mode.
    pub fn opcode(&self) -> (op: Option<u8>)
        ensures
            op == Self::opcode_of(self.0),
    {
        match self.0 {
            AddressingMode::ZeroPage(_) => Some(0xC6),
            AddressingMode::ZeroPageX(_) => Some(0xD6),
            AddressingMode::Absolute(_) => Some(0xCE),
            AddressingMode::AbsoluteX(_) => Some(0xDE),
            _ => None,
        }
    }

    /// Executes the instruction. The addressing mode must be one that DEC
    /// accepts.
    pub fn evaluate(&self, memory: &mut Memory, registers: &mut Registers)
        requires
            self.legal(),
        ensures
            State::of(*final(memory), *final(registers)) == self.effect(
                State::of(*old(memory), *old(registers)),
            ),
    {
        let value = self.0.read(memory, registers);
        self.0.write(memory, registers, value.wrapping_sub(1));
        registers.advance(1 + self.0.length());
    }

    /// The machine code of the instruction.
    pub fn render(&self) -> (bytes: Vec<u8>)
        requires
            self.legal(),
        ensures
            bytes@ == self.encoding(),
    {
        encode(self.opcode(), &self.0)
    }
}

/// DEX: subtract one from X.
#[derive(Clone, Copy, Debug, PartialEq, Eq, Structural)]
pub struct DEX;

impl DEX {
    /// The machine code: the opcode alone.
    pub open spec fn encoding(&self) -> Seq<u8> {
        seq![0xCAu8]
    }

    /// X receives X - 1, modulo 256. No flag changes. The program counter moves
    /// past the instruction.
    pub open spec fn effect(&self, s: State) -> State {
        State {
            registers: Registers {
                x: IndexX { value: ((s.registers.x.value - 1) % 256) as u8 },
                ..s.registers
            },
            ..s
        }.advance(1)
    }

    /// Executes the instruction.
    pub fn evaluate(&self, memory: &mut Memory, registers: &mut Registers)
        ensures
            State::of(*final(memory), *final(registers)) == self.effect(
                State::of(*old(memory), *old(registers)),
            ),
    {
        registers.x.value = registers.x.value.wrapping_sub(1);
        registers.advance(1);
    }

    /// The machine code of the instruction.
    pub fn render(&self) -> (bytes: Vec<u8>)
        ensures
            bytes@ == self.encoding(),
    {
        let bytes = vec![0xCA];
        assert(bytes@ =~= self.encoding());
        bytes
    }
}

/// INX: add one to X.
#[derive(Clone, Copy, Debug, PartialEq, Eq, Structural)]
pub struct INX;

impl INX {
    /// The machine code: the opcode alone.
    pub open spec fn encoding(&self) -> Seq<u8> {
        seq![0xE8u8]
    }

    /// X receives X + 1, modulo 256. No flag changes. The program counter moves
    /// past the instruction.
    pub open spec fn effect(&self, s: State) -> State {
        State {
            registers: Registers {
                x: IndexX { value: ((s.registers.x.value + 1) % 256) as u8 },
                ..s.registers
            },
            ..s
        }.advance(1)
    }

    /// Executes the instruction.
    pub fn evaluate(&self, memory: &mut Memory, registers: &mut Registers)
        ensures
            State::of(*final(memory), *final(registers)) == self.effect(
                State::of(*old(memory), *old(registers)),
            ),
    {
        registers.x.value = registers.x.value.wrapping_add(1);
        registers.advance(1);
    }

    /// The machine code of the instruction.
    pub fn render(&self) -> (bytes: Vec<u8>)
        ensures
            bytes@ == self.encoding(),
    {
        let bytes = vec![0xE8];
        assert(bytes@ =~= self.encoding());
        bytes
    }
}

/// DEY: subtract one from Y.
#[derive(Clone, Copy, Debug, PartialEq, Eq, Structural)]
pub struct DEY;

impl DEY {
    /// The machine code: the opcode alone.
    pub open spec fn encoding(&self) -> Seq<u8> {
        seq![0x88u8]
    }

    /// Y receives Y - 1, modulo 256. No flag changes. The program counter moves
    /// past the instruction.
    pub open spec fn effect(&self, s: State) -> State {
        State {
            registers: Registers {
                y: IndexY { value: ((s.registers.y.value - 1) % 256) as u8 },
                ..s.registers
            },
            ..s
        }.advance(1)
    }

    /// Executes the instruction.
    pub fn evaluate(&self, memory: &mut Memory, registers: &mut Registers)
        ensures
            State::of(*final(memory), *final(registers)) == self.effect(
                State::of(*old(memory), *old(registers)),
            ),
    {
        registers.y.value = registers.y.value.wrapping_sub(1);
        registers.advance(1);
    }

    /// The machine code of the instruction.
    pub fn render(&self) -> (bytes: Vec<u8>)
        ensures
            bytes@ == self.encoding(),
    {
        let bytes = vec![0x88];
        assert(bytes@ =~= self.encoding());
        bytes
    }
}

/// INY: add one to Y.
#[derive(Clone, Copy, Debug, PartialEq, Eq, Structural)]
pub struct INY;

impl INY {
    /// The machine code: the opcode alone.
    pub open spec fn encoding(&self) -> Seq<u8> {
        seq![0xC8u8]
    }

    /// Y receives Y + 1, modulo 256. No flag changes. The program counter moves
    /// past the instruction.
    pub open spec fn effect(&self, s: State) -> State {
        State {
            registers: Registers {
                y: IndexY { value: ((s.registers.y.value + 1) % 256) as u8 },
                ..s.registers
            },
            ..s
        }.advance(1)
    }

    /// Executes the instruction.
    pub fn evaluate(&self, memory: &mut Memory, registers: &mut Registers)
        ensures
            State::of(*final(memory), *final(registers)) == self.effect(
                State::of(*old(memory), *old(registers)),
            ),
    {
        registers.y.value = registers.y.value.wrapping_add(1);
        registers.advance(1);
    }

    /// The machine code of the instruction.
    pub fn render(&self) -> (bytes: Vec<u8>)
        ensures
            bytes@ == self.encoding(),
    {
        let bytes = vec![0xC8];
        assert(bytes@ =~= self.encoding());
        bytes
    }
}

} // verus!
