//! Loads, stores and register-to-register transfers.

use super::addressing::AddressingMode;
use super::encode;
use crate::memory::Memory;
use crate::registers::{Accumulator, IndexX, IndexY, Registers, StackPointer};
use crate::state::State;
use vstd::prelude::*;

verus! {

/// LDA: load the accumulator.
#[derive(Clone, Copy, Debug, PartialEq, Eq, Structural)]
pub struct LDA(pub AddressingMode);

impl LDA {
    /// The opcode of LDA in each addressing mode that it accepts.
    pub open spec fn opcode_of(mode: AddressingMode) -> Option<u8> {
        match mode {
            AddressingMode::Immediate(_) => Some(0xA9u8),
            AddressingMode::ZeroPage(_) => Some(0xA5u8),
            AddressingMode::ZeroPageX(_) => Some(0xB5u8),
            AddressingMode::Absolute(_) => Some(0xADu8),
            AddressingMode::AbsoluteX(_) => Some(0xBDu8),
            AddressingMode::AbsoluteY(_) => Some(0xB9u8),
            AddressingMode::IndexedIndirect(_) => Some(0xA1u8),
            AddressingMode::IndirectIndexed(_) => Some(0xB1u8),
            _ => None,
        }
    }

    /// Whether the addressing mode is one that LDA accepts.
    pub open spec fn legal(&self) -> bool {
        Self::opcode_of(self.0) is Some
    }

    /// The machine code: the opcode, then the operand bytes.
    pub open spec fn encoding(&self) -> Seq<u8> {
        seq![Self::opcode_of(self.0).unwrap()] + self.0.operand_bytes()
    }

    /// The accumulator receives the operand. No flag changes. The program
    /// counter moves past the instruction.
    pub open spec fn effect(&self, s: State) -> State {
        State {
            registers: Registers { acc: Accumulator { value: self.0.operand(s) }, ..s.registers },
            ..s
        }.advance(1 + self.0.operand_len())
    }

    /// The opcode, or `None` where LDA does not accept the addressing
    /// mode.
    pub fn opcode(&self) -> (op: Option<u8>)
        ensures
            op == Self::opcode_of(self.0),
    {
        match self.0 {
            AddressingMode::Immediate(_) => Some(0xA9),
            AddressingMode::ZeroPage(_) => Some(0xA5),
            AddressingMode::ZeroPageX(_) => Some(0xB5),
            AddressingMode::Absolute(_) => Some(0xAD),
            AddressingMode::AbsoluteX(_) => Some(0xBD),
            AddressingMode::AbsoluteY(_) => Some(0xB9),
            AddressingMode::IndexedIndirect(_) => Some(0xA1),
            AddressingMode::IndirectIndexed(_) => Some(0xB1),
            _ => None,
        }
    }

    /// Executes the instruction. The addressing mode must be one that LDA
    /// accepts.
    pub fn evaluate(&self, memory: &mut Memory, registers: &mut Registers)
        requires
            self.legal(),
        ensures
            State::of(*final(memory), *final(registers)) == self.effect(
                State::of(*old(memory), *old(registers)),
            ),
    {
        let value = self.0.read(memory, registers);
        registers.acc.value = value;
        registers.advance(1 + self.0.length());
    }

    /// The machine code of the instruction.
    pub fn render(&self) -> (bytes: Vec<u8>)
        requires
            self.legal(),
        ensures
            bytes@ == self.encoding(),
    {
        encode(self.opcode(), &self.0)
    }
}

/// LDX: load X.
#[derive(Clone, Copy, Debug, PartialEq, Eq, Structural)]
pub struct LDX(pub AddressingMode);

impl LDX {
    /// The opcode of LDX in each addressing mode that it accepts.
    pub open spec fn opcode_of(mode: AddressingMode) -> Option<u8> {
        match mode {
            AddressingMode::Immediate(_) => Some(0xA2u8),
            AddressingMode::ZeroPage(_) => Some(0xA6u8),
            AddressingMode::ZeroPageY(_) => Some(0xB6u8),
            AddressingMode::Absolute(_) => Some(0xAEu8),
            AddressingMode::AbsoluteY(_) => Some(0xBEu8),
            _ => None,
        }
    }

    /// Whether the addressing mode is one that LDX accepts.
    pub open spec fn legal(&self) -> bool {
        Self::opcode_of(self.0) is Some
    }

    /// The machine code: the opcode, then the operand bytes.
    pub open spec fn encoding(&self) -> Seq<u8> {
        seq![Self::opcode_of(self.0).unwrap()] + self.0.operand_bytes()
    }

    /// X receives the operand. No flag changes. The program counter moves past
    /// the instruction.
    pub open spec fn effect(&self, s: State) -> State {
        State {
            registers: Registers { x: IndexX { value: self.0.operand(s) }, ..s.registers },
            ..s
        }.advance(1 + self.0.operand_len())
    }

    /// The opcode, or `None` where LDX does not accept the addressing
    /// mode.
    pub fn opcode(&self) -> (op: Option<u8>)
        ensures
            op == Self::opcode_of(self.0),
    {
        match self.0 {
            AddressingMode::Immediate(_) => Some(0xA2),
            AddressingMode::ZeroPage(_) => Some(0xA6),
            AddressingMode::ZeroPageY(_) => Some(0xB6),
            AddressingMode::Absolute(_) => Some(0xAE),
            AddressingMode::AbsoluteY(_) => Some(0xBE),
            _ => None,
        }
    }

    /// Executes the instruction. The addressing mode must be one that LDX
    /// accepts.
    pub fn evaluate(&self, memory: &mut Memory, registers: &mut Registers)
        requires
            self.legal(),
        ensures
            State::of(*final(memory), *final(registers)) == self.effect(
                State::of(*old(memory), *old(registers)),
            ),
    {
        let value = self.0.read(memory, registers);
        registers.x.value = value;
        registers.advance(1 + self.0.length());
    }

    /// The machine code of the instruction.
    pub fn render(&self) -> (bytes: Vec<u8>)
        requires
            self.legal(),
        ensures
            bytes@ == self.encoding(),
    {
        encode(self.opcode(), &self.0)
    }
}

/// LDY: load Y.
#[derive(Clone, Copy, Debug, PartialEq, Eq, Structural)]
pub struct LDY(pub AddressingMode);

impl LDY {
    /// The opcode of LDY in each addressing mode that it accepts.
    pub open spec fn opcode_of(mode: AddressingMode) -> Option<u8> {
        match mode {
            AddressingMode::Immediate(_) => Some(0xA0u8),
            AddressingMode::ZeroPage(_) => Some(0xA4u8),
            AddressingMode::ZeroPageX(_) => Some(0xB4u8),
            AddressingMode::Absolute(_) => Some(0xACu8),
            AddressingMode::AbsoluteX(_) => Some(0xBCu8),
            _ => None,
        }
    }

    /// Whether the addressing mode is one that LDY accepts.
    pub open spec fn legal(&self) -> bool {
        Self::opcode_of(self.0) is Some
    }

    /// The machine code: the opcode, then the operand bytes.
    pub open spec fn encoding(&self) -> Seq<u8> {
        seq![Self::opcode_of(self.0).unwrap()] + self.0.operand_bytes()
    }

    /// Y receives the operand. No flag changes. The program counter moves past
    /// the instruction.
    pub open spec fn effect(&self, s: State) -> State {
        State {
            registers: Registers { y: IndexY { value: self.0.operand(s) }, ..s.registers },
            ..s
        }.advance(1 + self.0.operand_len())
    }

    /// The opcode, or `None` where LDY does not accept the addressing
    /// mode.
    pub fn opcode(&self) -> (op: Option<u8>)
        ensures
            op == Self::opcode_of(self.0),
    {
        match self.0 {
            AddressingMode::Immediate(_) => Some(0xA0),
            AddressingMode::ZeroPage(_) => Some(0xA4),
            AddressingMode::ZeroPageX(_) => Some(0xB4),
            AddressingMode::Absolute(_) => Some(0xAC),
            AddressingMode::AbsoluteX(_) => Some(0xBC),
            _ => None,
        }
    }

    /// Executes the instruction. The addressing mode must be one that LDY
    /// accepts.
    pub fn evaluate(&self, memory: &mut Memory, registers: &mut Registers)
        requires
            self.legal(),
        ensures
            State::of(*final(memory), *final(registers)) == self.effect(
                State::of(*old(memory), *old(registers)),
            ),
    {
        let value = self.0.read(memory, registers);
        registers.y.value = value;
        registers.advance(1 + self.0.length());
    }

    /// The machine code of the instruction.
    pub fn render(&self) -> (bytes: Vec<u8>)
        requires
            self.legal(),
        ensures
            bytes@ == self.encoding(),
    {
        encode(self.opcode(), &self.0)
    }
}

/// STA: store the accumulator.
#[derive(Clone, Copy, Debug, PartialEq, Eq, Structural)]
pub struct STA(pub AddressingMode);

impl STA {
    /// The opcode of STA in each addressing mode that it accepts.
    pub open spec fn opcode_of(mode: AddressingMode) -> Option<u8> {
        match mode {
            AddressingMode::ZeroPage(_) => Some(0x85u8),
            AddressingMode::ZeroPageX(_) => Some(0x95u8),
            AddressingMode::Absolute(_) => Some(0x8Du8),
            AddressingMode::AbsoluteX(_) => Some(0x9Du8),
            AddressingMode::AbsoluteY(_) => Some(0x99u8),
            AddressingMode::IndexedIndirect(_) => Some(0x81u8),
            AddressingMode::IndirectIndexed(_) => Some(0x91u8),
            _ => None,
        }
    }

    /// Whether the addressing mode is one that STA accepts.
    pub open spec fn legal(&self) -> bool {
        Self::opcode_of(self.0) is Some
    }

    /// The machine code: the opcode, then the operand bytes.
    pub open spec fn encoding(&self) -> Seq<u8> {
        seq![Self::opcode_of(self.0).unwrap()] + self.0.operand_bytes()
    }

    /// The operand receives the value of the accumulator. No flag changes. The
    /// program counter moves past the instruction.
    pub open spec fn effect(&self, s: State) -> State {
        self.0.store(s, s.registers.acc.value).advance(1 + self.0.operand_len())
    }

    /// The opcode, or `None` where STA does not accept the addressing
    /// mode.
    pub fn opcode(&self) -> (op: Option<u8>)
        ensures
            op == Self::opcode_of(self.0),
    {
        match self.0 {
            AddressingMode::ZeroPage(_) => Some(0x85),
            AddressingMode::ZeroPageX(_) => Some(0x95),
            AddressingMode::Absolute(_) => Some(0x8D),
            AddressingMode::AbsoluteX(_) => Some(0x9D),
            AddressingMode::AbsoluteY(_) => Some(0x99),
            AddressingMode::IndexedIndirect(_) => Some(0x81),
            AddressingMode::IndirectIndexed(_) => Some(0x91),
            _ => None,
        }
    }

    /// Executes the instruction. The addressing mode must be one that STA
    /// accepts.
    pub fn evaluate(&self, memory: &mut Memory, registers: &mut Registers)
        requires
            self.legal(),
        ensures
            State::of(*final(memory), *final(registers)) == self.effect(
                State::of(*old(memory), *old(registers)),
            ),
    {
        let value = registers.acc.value;
        self.0.write(memory, registers, value);
        registers.advance(1 + self.0.length());
    }

    /// The machine code of the instruction.
    pub fn render(&self) -> (bytes: Vec<u8>)
        requires
            self.legal(),
        ensures
            bytes@ == self.encoding(),
    {
        encode(self.opcode(), &self.0)
    }
}

/// STX: store X.
#[derive(Clone, Copy, Debug, PartialEq, Eq, Structural)]
pub struct STX(pub AddressingMode);

impl STX {
    /// The opcode of STX in each addressing mode that it accepts.
    pub open spec fn opcode_of(mode: AddressingMode) -> Option<u8> {
        match mode {
            AddressingMode::ZeroPage(_) => Some(0x86u8),
            AddressingMode::ZeroPageY(_) => Some(0x96u8),
            AddressingMode::Absolute(_) => Some(0x8Eu8),
            _ => None,
        }
    }

    /// Whether the addressing mode is one that STX accepts.
    pub open spec fn legal(&self) -> bool {
        Self::opcode_of(self.0) is Some
    }

    /// The machine code: the opcode, then the operand bytes.
    pub open spec fn encoding(&self) -> Seq<u8> {
        seq![Self::opcode_of(self.0).unwrap()] + self.0.operand_bytes()
    }

    /// The operand receives the value of X. No flag changes. The program
    /// counter moves past the instruction.
    pub open spec fn effect(&self, s: State) -> State {
        self.0.store(s, s.registers.x.value).advance(1 + self.0.operand_len())
    }

    /// The opcode, or `None` where STX does not accept the addressing
    /// mode.
    pub fn opcode(&self) -> (op: Option<u8>)
        ensures
            op == Self::opcode_of(self.0),
    {
        match self.0 {
            AddressingMode::ZeroPage(_) => Some(0x86),
            AddressingMode::ZeroPageY(_) => Some(0x96),
            AddressingMode::Absolute(_) => Some(0x8E),
            _ => None,
        }
    }

    /// Executes the instruction. The addressing mode must be one that STX
    /// accepts.
    pub fn evaluate(&self, memory: &mut Memory, registers: &mut Registers)
        requires
            self.legal(),
        ensures
            State::of(*final(memory), *final(registers)) == self.effect(
                State::of(*old(memory), *old(registers)),
            ),
    {
        let value = registers.x.value;
        self.0.write(memory, registers, value);
        registers.advance(1 + self.0.length());
    }

    /// The machine code of the instruction.
    pub fn render(&self) -> (bytes: Vec<u8>)
        requires
            self.legal(),
        ensures
            bytes@ == self.encoding(),
    {
        encode(self.opcode(), &self.0)
    }
}

/// STY: store Y.
#[derive(Clone, Copy, Debug, PartialEq, Eq, Structural)]
pub struct STY(pub AddressingMode);

impl STY {
    /// The opcode of STY in each addressing mode that it accepts.
    pub open spec fn opcode_of(mode: AddressingMode) -> Option<u8> {
        match mode {
            AddressingMode::ZeroPage(_) => Some(0x84u8),
            AddressingMode::ZeroPageX(_) => Some(0x94u8),
            AddressingMode::Absolute(_) => Some(0x8Cu8),
            _ => None,
        }
    }

    /// Whether the addressing mode is one that STY accepts.
    pub open spec fn legal(&self) -> bool {
        Self::opcode_of(self.0) is Some
    }

    /// The machine code: the opcode, then the operand bytes.
    pub open spec fn encoding(&self) -> Seq<u8> {
        seq![Self::opcode_of(self.0).unwrap()] + self.0.operand_bytes()
    }

    /// The operand receives the value of Y. No flag changes. The program
    /// counter moves past the instruction.
    pub open spec fn effect(&self, s: State) -> State {
        self.0.store(s, s.registers.y.value).advance(1 + self.0.operand_len())
    }

    /// The opcode, or `None` where STY does not accept the addressing
    /// mode.
    pub fn opcode(&self) -> (op: Option<u8>)
        ensures
            op == Self::opcode_of(self.0),
    {
        match self.0 {
            AddressingMode::ZeroPage(_) => Some(0x84),
            AddressingMode::ZeroPageX(_) => Some(0x94),
            AddressingMode::Absolute(_) => Some(0x8C),
            _ => None,
        }
    }

    /// Executes the instruction. The addressing mode must be one that STY
    /// accepts.
    pub fn evaluate(&self, memory: &mut Memory, registers: &mut Registers)
        requires
            self.legal(),
        ensures
            State::of(*final(memory), *final(registers)) == self.effect(
                State::of(*old(memory), *old(registers)),
            ),
    {
        let value = registers.y.value;
        self.0.write(memory, registers, value);
        registers.advance(1 + self.0.length());
    }

    /// The machine code of the instruction.
    pub fn render(&self) -> (bytes: Vec<u8>)
        requires
            self.legal(),
        ensures
            bytes@ == self.encoding(),
    {
        encode(self.opcode(), &self.0)
    }
}

/// TAX: copy the accumulator to X.
#[derive(Clone, Copy, Debug, PartialEq, Eq, Structural)]
pub struct TAX;

impl TAX {
    /// The machine code: the opcode alone.
    pub open spec fn encoding(&self) -> Seq<u8> {
        seq![0xAAu8]
    }

    /// X receives the value of the accumulator. Memory is untouched and no flag
    /// changes. The program counter moves past the instruction.
    pub open spec fn effect(&self, s: State) -> State {
        State {
            registers: Registers { x: IndexX { value: s.registers.acc.value }, ..s.registers },
            ..s
        }.advance(1)
    }

    /// Executes the instruction.
    pub fn evaluate(&self, memory: &mut Memory, registers: &mut Registers)
        ensures
            State::of(*final(memory), *final(registers)) == self.effect(
                State::of(*old(memory), *old(registers)),
            ),
    {
        registers.x.value = registers.acc.value;
        registers.advance(1);
    }

    /// The machine code of the instruction.
    pub fn render(&self) -> (bytes: Vec<u8>)
        ensures
            bytes@ == self.encoding(),
    {
        let bytes = vec![0xAA];
        assert(bytes@ =~= self.encoding());
        bytes
    }
}

/// TXA: copy X to the accumulator.
#[derive(Clone, Copy, Debug, PartialEq, Eq, Structural)]
pub struct TXA;

impl TXA {
    /// The machine code: the opcode alone.
    pub open spec fn encoding(&self) -> Seq<u8> {
        seq![0x8Au8]
    }

    /// The accumulator receives the value of X. Memory is untouched and no flag
    /// changes. The program counter moves past the instruction.
    pub open spec fn effect(&self, s: State) -> State {
        State {
            registers: Registers { acc: Accumulator { value: s.registers.x.value }, ..s.registers },
            ..s
        }.advance(1)
    }

    /// Executes the instruction.
    pub fn evaluate(&self, memory: &mut Memory, registers: &mut Registers)
        ensures
            State::of(*final(memory), *final(registers)) == self.effect(
                State::of(*old(memory), *old(registers)),
            ),
    {
        registers.acc.value = registers.x.value;
        registers.advance(1);
    }

    /// The machine code of the instruction.
    pub fn render(&self) -> (bytes: Vec<u8>)
        ensures
            bytes@ == self.encoding(),
    {
        let bytes = vec![0x8A];
        assert(bytes@ =~= self.encoding());
        bytes
    }
}

/// TAY: copy the accumulator to Y.
#[derive(Clone, Copy, Debug, PartialEq, Eq, Structural)]
pub struct TAY;

impl TAY {
    /// The machine code: the opcode alone.
    pub open spec fn encoding(&self) -> Seq<u8> {
        seq![0xA8u8]
    }

    /// Y receives the value of the accumulator. Memory is untouched and no flag
    /// changes. The program counter moves past the instruction.
    pub open spec fn effect(&self, s: State) -> State {
        State {
            registers: Registers { y: IndexY { value: s.registers.acc.value }, ..s.registers },
            ..s
        }.advance(1)
    }

    /// Executes the instruction.
    pub fn evaluate(&self, memory: &mut Memory, registers: &mut Registers)
        ensures
            State::of(*final(memory), *final(registers)) == self.effect(
                State::of(*old(memory), *old(registers)),
            ),
    {
        registers.y.value = registers.acc.value;
        registers.advance(1);
    }

    /// The machine code of the instruction.
    pub fn render(&self) -> (bytes: Vec<u8>)
        ensures
            bytes@ == self.encoding(),
    {
        let bytes = vec![0xA8];
        assert(bytes@ =~= self.encoding());
        bytes
    }
}

/// TYA: copy Y to the accumulator.
#[derive(Clone, Copy, Debug, PartialEq, Eq, Structural)]
pub struct TYA;

impl TYA {
    /// The machine code: the opcode alone.
    pub open spec fn encoding(&self) -> Seq<u8> {
        seq![0x98u8]
    }

    /// The accumulator receives the value of Y. Memory is untouched and no flag
    /// changes. The program counter moves past the instruction.
    pub open spec fn effect(&self, s: State) -> State {
        State {
            registers: Registers { acc: Accumulator { value: s.registers.y.value }, ..s.registers },
            ..s
        }.advance(1)
    }

    /// Executes the instruction.
    pub fn evaluate(&self, memory: &mut Memory, registers: &mut Registers)
        ensures
            State::of(*final(memory), *final(registers)) == self.effect(
                State::of(*old(memory), *old(registers)),
            ),
    {
        registers.acc.value = registers.y.value;
        registers.advance(1);
    }

    /// The machine code of the instruction.
    pub fn render(&self) -> (bytes: Vec<u8>)
        ensures
            bytes@ == self.encoding(),
    {
        let bytes = vec![0x98];
        assert(bytes@ =~= self.encoding());
        bytes
    }
}

/// TXS: copy X to the stack pointer.
#[derive(Clone, Copy, Debug, PartialEq, Eq, Structural)]
pub struct TXS;

impl TXS {
    /// The machine code: the opcode alone.
    pub open spec fn encoding(&self) -> Seq<u8> {
        seq![0x9Au8]
    }

    /// The stack pointer receives the value of X. Memory is untouched and no
    /// flag changes. The program counter moves past the instruction.
    pub open spec fn effect(&self, s: State) -> State {
        State {
            registers: Registers { sp: StackPointer { value: s.registers.x.value }, ..s.registers },
            ..s
        }.advance(1)
    }

    /// Executes the instruction.
    pub fn evaluate(&self, memory: &mut Memory, registers: &mut Registers)
        ensures
            State::of(*final(memory), *final(registers)) == self.effect(
                State::of(*old(memory), *old(registers)),
            ),
    {
        registers.sp.value = registers.x.value;
        registers.advance(1);
    }

    /// The machine code of the instruction.
    pub fn render(&self) -> (bytes: Vec<u8>)
        ensures
            bytes@ == self.encoding(),
    {
        let bytes = vec![0x9A];
        assert(bytes@ =~= self.encoding());
        bytes
    }
}

/// TSX: copy the stack pointer to X.
#[derive(Clone, Copy, Debug, PartialEq, Eq, Structural)]
pub struct TSX;

impl TSX {
    /// The machine code: the opcode alone.
    pub open spec fn encoding(&self) -> Seq<u8> {
        seq![0xBAu8]
    }

    /// X receives the value of the stack pointer. Memory is untouched and no
    /// flag changes. The program counter moves past the instruction.
    pub open spec fn effect(&self, s: State) -> State {
        State {
            registers: Registers { x: IndexX { value: s.registers.sp.value }, ..s.registers },
            ..s
        }.advance(1)
    }

    /// Executes the instruction.
    pub fn evaluate(&self, memory: &mut Memory, registers: &mut Registers)
        ensures
            State::of(*final(memory), *final(registers)) == self.effect(
                State::of(*old(memory), *old(registers)),
            ),
    {
        registers.x.value = registers.sp.value;
        registers.advance(1);
    }

    /// The machine code of the instruction.
    pub fn render(&self) -> (bytes: Vec<u8>)
        ensures
            bytes@ == self.encoding(),
    {
        let bytes = vec![0xBA];
        assert(bytes@ =~= self.encoding());
        bytes
    }
}

} // verus!
