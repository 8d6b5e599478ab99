//! The decoder: from machine code to instructions.
//!
//! Every opcode is one byte. It selects the mnemonic and the addressing
//! mode, and with them the number of operand bytes that follow: none, one,
//! or two with the low byte first.

use super::addressing::AddressingMode;
use super::alu::{signed, to_signed};
use super::{
    Instruction, ADC, AND, ASL, BCC, BCS, BEQ, BIT, BMI, BNE, BPL, BRK, BVC, BVS, CLC, CLD, CLI,
    CLV, CMP, CPX, CPY, DEC, DEX, DEY, EOR, INC, INX, INY, JMP, JSR, LDA, LDX, LDY, LSR, NOP, ORA,
    PHA, PHP, PLA, PLP, ROL, ROR, RTI, RTS, SBC, SEC, SED, SEI, STA, STX, STY, TAX, TAY, TSX, TXA,
    TXS, TYA,
};
use crate::memory::{join_bytes, word, Memory};
use vstd::prelude::*;

verus! {

/// The error of decoding a byte that is no opcode; it holds the byte.
#[derive(Clone, Copy, Debug, PartialEq, Eq, Structural)]
pub struct IllegalOpcode(pub u8);

/// The instruction that starts with the byte `opcode`, where `low` and
/// `high` are the two bytes after it. `low` is used only where the opcode
/// takes an operand, `high` only where it takes two operand bytes.
pub open spec fn decoded(opcode: u8, low: u8, high: u8) -> Result<Instruction, IllegalOpcode> {
    match opcode {
        0x69 => Ok(Instruction::ADC(ADC(AddressingMode::Immediate(low)))),
        0x65 => Ok(Instruction::ADC(ADC(AddressingMode::ZeroPage(low)))),
        0x75 => Ok(Instruction::ADC(ADC(AddressingMode::ZeroPageX(low)))),
        0x6D => Ok(Instruction::ADC(ADC(AddressingMode::Absolute(word(low, high))))),
        0x7D => Ok(Instruction::ADC(ADC(AddressingMode::AbsoluteX(word(low, high))))),
        0x79 => Ok(Instruction::ADC(ADC(AddressingMode::AbsoluteY(word(low, high))))),
        0x61 => Ok(Instruction::ADC(ADC(AddressingMode::IndexedIndirect(low)))),
        0x71 => Ok(Instruction::ADC(ADC(AddressingMode::IndirectIndexed(low)))),

        0x29 => Ok(Instruction::AND(AND(AddressingMode::Immediate(low)))),
        0x25 => Ok(Instruction::AND(AND(AddressingMode::ZeroPage(low)))),
        0x35 => Ok(Instruction::AND(AND(AddressingMode::ZeroPageX(low)))),
        0x2D => Ok(Instruction::AND(AND(AddressingMode::Absolute(word(low, high))))),
        0x3D => Ok(Instruction::AND(AND(AddressingMode::AbsoluteX(word(low, high))))),
        0x39 => Ok(Instruction::AND(AND(AddressingMode::AbsoluteY(word(low, high))))),
        0x21 => Ok(Instruction::AND(AND(AddressingMode::IndexedIndirect(low)))),
        0x31 => Ok(Instruction::AND(AND(AddressingMode::IndirectIndexed(low)))),

        0x0A => Ok(Instruction::ASL(ASL(AddressingMode::Accumulator))),
        0x06 => Ok(Instruction::ASL(ASL(AddressingMode::ZeroPage(low)))),
        0x16 => Ok(Instruction::ASL(ASL(AddressingMode::ZeroPageX(low)))),
        0x0E => Ok(Instruction::ASL(ASL(AddressingMode::Absolute(word(low, high))))),
        0x1E => Ok(Instruction::ASL(ASL(AddressingMode::AbsoluteX(word(low, high))))),

        0x24 => Ok(Instruction::BIT(BIT(AddressingMode::ZeroPage(low)))),
        0x2C => Ok(Instruction::BIT(BIT(AddressingMode::Absolute(word(low, high))))),

        0x10 => Ok(Instruction::BPL(BPL(signed(low)))),

        0x30 => Ok(Instruction::BMI(BMI(signed(low)))),

        0x50 => Ok(Instruction::BVC(BVC(signed(low)))),

        0x70 => Ok(Instruction::BVS(BVS(signed(low)))),

        0x90 => Ok(Instruction::BCC(BCC(signed(low)))),

        0xB0 => Ok(Instruction::BCS(BCS(signed(low)))),

        0xD0 => Ok(Instruction::BNE(BNE(signed(low)))),

        0xF0 => Ok(Instruction::BEQ(BEQ(signed(low)))),

        0x00 => Ok(Instruction::BRK(BRK)),

        0xC9 => Ok(Instruction::CMP(CMP(AddressingMode::Immediate(low)))),
        0xC5 => Ok(Instruction::CMP(CMP(AddressingMode::ZeroPage(low)))),
        0xD5 => Ok(Instruction::CMP(CMP(AddressingMode::ZeroPageX(low)))),
        0xCD => Ok(Instruction::CMP(CMP(AddressingMode::Absolute(word(low, high))))),
        0xDD => Ok(Instruction::CMP(CMP(AddressingMode::AbsoluteX(word(low, high))))),
        0xD9 => Ok(Instruction::CMP(CMP(AddressingMode::AbsoluteY(word(low, high))))),
        0xC1 => Ok(Instruction::CMP(CMP(AddressingMode::IndexedIndirect(low)))),
        0xD1 => Ok(Instruction::CMP(CMP(AddressingMode::IndirectIndexed(low)))),

        0xE0 => Ok(Instruction::CPX(CPX(AddressingMode::Immediate(low)))),
        0xE4 => Ok(Instruction::CPX(CPX(AddressingMode::ZeroPage(low)))),
        0xEC => Ok(Instruction::CPX(CPX(AddressingMode::Absolute(word(low, high))))),

        0xC0 => Ok(Instruction::CPY(CPY(AddressingMode::Immediate(low)))),
        0xC4 => Ok(Instruction::CPY(CPY(AddressingMode::ZeroPage(low)))),
        0xCC => Ok(Instruction::CPY(CPY(AddressingMode::Absolute(word(low, high))))),

        0xC6 => Ok(Instruction::DEC(DEC(AddressingMode::ZeroPage(low)))),
        0xD6 => Ok(Instruction::DEC(DEC(AddressingMode::ZeroPageX(low)))),
        0xCE => Ok(Instruction::DEC(DEC(AddressingMode::Absolute(word(low, high))))),
        0xDE => Ok(Instruction::DEC(DEC(AddressingMode::AbsoluteX(word(low, high))))),

        0x49 => Ok(Instruction::EOR(EOR(AddressingMode::Immediate(low)))),
        0x45 => Ok(Instruction::EOR(EOR(AddressingMode::ZeroPage(low)))),
        0x55 => Ok(Instruction::EOR(EOR(AddressingMode::ZeroPageX(low)))),
        0x4D => Ok(Instruction::EOR(EOR(AddressingMode::Absolute(word(low, high))))),
        0x5D => Ok(Instruction::EOR(EOR(AddressingMode::AbsoluteX(word(low, high))))),
        0x59 => Ok(Instruction::EOR(EOR(AddressingMode::AbsoluteY(word(low, high))))),
        0x41 => Ok(Instruction::EOR(EOR(AddressingMode::IndexedIndirect(low)))),
        0x51 => Ok(Instruction::EOR(EOR(AddressingMode::IndirectIndexed(low)))),

        0x18 => Ok(Instruction::CLC(CLC)),

        0x38 => Ok(Instruction::SEC(SEC)),

        0x58 => Ok(Instruction::CLI(CLI)),

        0x78 => Ok(Instruction::SEI(SEI)),

        0xB8 => Ok(Instruction::CLV(CLV)),

        0xD8 => Ok(Instruction::CLD(CLD)),

        0xF8 => Ok(Instruction::SED(SED)),

        0xE6 => Ok(Instruction::INC(INC(AddressingMode::ZeroPage(low)))),
        0xF6 => Ok(Instruction::INC(INC(AddressingMode::ZeroPageX(low)))),
        0xEE => Ok(Instruction::INC(INC(AddressingMode::Absolute(word(low, high))))),
        0xFE => Ok(Instruction::INC(INC(AddressingMode::AbsoluteX(word(low, high))))),

        0x4C => Ok(Instruction::JMP(JMP(AddressingMode::Absolute(word(low, high))))),
        0x6C => Ok(Instruction::JMP(JMP(AddressingMode::Indirect(word(low, high))))),

        0x20 => Ok(Instruction::JSR(JSR(word(low, high)))),

        0xA9 => Ok(Instruction::LDA(LDA(AddressingMode::Immediate(low)))),
        0xA5 => Ok(Instruction::LDA(LDA(AddressingMode::ZeroPage(low)))),
        0xB5 => Ok(Instruction::LDA(LDA(AddressingMode::ZeroPageX(low)))),
        0xAD => Ok(Instruction::LDA(LDA(AddressingMode::Absolute(word(low, high))))),
        0xBD => Ok(Instruction::LDA(LDA(AddressingMode::AbsoluteX(word(low, high))))),
        0xB9 => Ok(Instruction::LDA(LDA(AddressingMode::AbsoluteY(word(low, high))))),
        0xA1 => Ok(Instruction::LDA(LDA(AddressingMode::IndexedIndirect(low)))),
        0xB1 => Ok(Instruction::LDA(LDA(AddressingMode::IndirectIndexed(low)))),

        0xA2 => Ok(Instruction::LDX(LDX(AddressingMode::Immediate(low)))),
        0xA6 => Ok(Instruction::LDX(LDX(AddressingMode::ZeroPage(low)))),
        0xB6 => Ok(Instruction::LDX(LDX(AddressingMode::ZeroPageY(low)))),
        0xAE => Ok(Instruction::LDX(LDX(AddressingMode::Absolute(word(low, high))))),
        0xBE => Ok(Instruction::LDX(LDX(AddressingMode::AbsoluteY(word(low, high))))),

        0xA0 => Ok(Instruction::LDY(LDY(AddressingMode::Immediate(low)))),
        0xA4 => Ok(Instruction::LDY(LDY(AddressingMode::ZeroPage(low)))),
        0xB4 => Ok(Instruction::LDY(LDY(AddressingMode::ZeroPageX(low)))),
        0xAC => Ok(Instruction::LDY(LDY(AddressingMode::Absolute(word(low, high))))),
        0xBC => Ok(Instruction::LDY(LDY(AddressingMode::AbsoluteX(word(low, high))))),

        0x4A => Ok(Instruction::LSR(LSR(AddressingMode::Accumulator))),
        0x46 => Ok(Instruction::LSR(LSR(AddressingMode::ZeroPage(low)))),
        0x56 => Ok(Instruction::LSR(LSR(AddressingMode::ZeroPageX(low)))),
        0x4E => Ok(Instruction::LSR(LSR(AddressingMode::Absolute(word(low, high))))),
        0x5E => Ok(Instruction::LSR(LSR(AddressingMode::AbsoluteX(word(low, high))))),

        0xEA => Ok(Instruction::NOP(NOP)),

        0x09 => Ok(Instruction::ORA(ORA(AddressingMode::Immediate(low)))),
        0x05 => Ok(Instruction::ORA(ORA(AddressingMode::ZeroPage(low)))),
        0x15 => Ok(Instruction::ORA(ORA(AddressingMode::ZeroPageX(low)))),
        0x0D => Ok(Instruction::ORA(ORA(AddressingMode::Absolute(word(low, high))))),
        0x1D => Ok(Instruction::ORA(ORA(AddressingMode::AbsoluteX(word(low, high))))),
        0x19 => Ok(Instruction::ORA(ORA(AddressingMode::AbsoluteY(word(low, high))))),
        0x01 => Ok(Instruction::ORA(ORA(AddressingMode::IndexedIndirect(low)))),
        0x11 => Ok(Instruction::ORA(ORA(AddressingMode::IndirectIndexed(low)))),

        0xAA => Ok(Instruction::TAX(TAX)),

        0x8A => Ok(Instruction::TXA(TXA)),

        0xCA => Ok(Instruction::DEX(DEX)),

        0xE8 => Ok(Instruction::INX(INX)),

        0xA8 => Ok(Instruction::TAY(TAY)),

        0x98 => Ok(Instruction::TYA(TYA)),

        0x88 => Ok(Instruction::DEY(DEY)),

        0xC8 => Ok(Instruction::INY(INY)),

        0x2A => Ok(Instruction::ROL(ROL(AddressingMode::Accumulator))),
        0x26 => Ok(Instruction::ROL(ROL(AddressingMode::ZeroPage(low)))),
        0x36 => Ok(Instruction::ROL(ROL(AddressingMode::ZeroPageX(low)))),
        0x2E => Ok(Instruction::ROL(ROL(AddressingMode::Absolute(word(low, high))))),
        0x3E => Ok(Instruction::ROL(ROL(AddressingMode::AbsoluteX(word(low, high))))),

        0x6A => Ok(Instruction::ROR(ROR(AddressingMode::Accumulator))),
        0x66 => Ok(Instruction::ROR(ROR(AddressingMode::ZeroPage(low)))),
        0x76 => Ok(Instruction::ROR(ROR(AddressingMode::ZeroPageX(low)))),
        0x6E => Ok(Instruction::ROR(ROR(AddressingMode::Absolute(word(low, high))))),
        0x7E => Ok(Instruction::ROR(ROR(AddressingMode::AbsoluteX(word(low, high))))),

        0x40 => Ok(Instruction::RTI(RTI)),

        0x60 => Ok(Instruction::RTS(RTS)),

        0xE9 => Ok(Instruction::SBC(SBC(AddressingMode::Immediate(low)))),
        0xE5 => Ok(Instruction::SBC(SBC(AddressingMode::ZeroPage(low)))),
        0xF5 => Ok(Instruction::SBC(SBC(AddressingMode::ZeroPageX(low)))),
        0xED => Ok(Instruction::SBC(SBC(AddressingMode::Absolute(word(low, high))))),
        0xFD => Ok(Instruction::SBC(SBC(AddressingMode::AbsoluteX(word(low, high))))),
        0xF9 => Ok(Instruction::SBC(SBC(AddressingMode::AbsoluteY(word(low, high))))),
        0xE1 => Ok(Instruction::SBC(SBC(AddressingMode::IndexedIndirect(low)))),
        0xF1 => Ok(Instruction::SBC(SBC(AddressingMode::IndirectIndexed(low)))),

        0x85 => Ok(Instruction::STA(STA(AddressingMode::ZeroPage(low)))),
        0x95 => Ok(Instruction::STA(STA(AddressingMode::ZeroPageX(low)))),
        0x8D => Ok(Instruction::STA(STA(AddressingMode::Absolute(word(low, high))))),
        0x9D => Ok(Instruction::STA(STA(AddressingMode::AbsoluteX(word(low, high))))),
        0x99 => Ok(Instruction::STA(STA(AddressingMode::AbsoluteY(word(low, high))))),
        0x81 => Ok(Instruction::STA(STA(AddressingMode::IndexedIndirect(low)))),
        0x91 => Ok(Instruction::STA(STA(AddressingMode::IndirectIndexed(low)))),

        0x9A => Ok(Instruction::TXS(TXS)),

        0xBA => Ok(Instruction::TSX(TSX)),

        0x48 => Ok(Instruction::PHA(PHA)),

        0x68 => Ok(Instruction::PLA(PLA)),

        0x08 => Ok(Instruction::PHP(PHP)),

        0x28 => Ok(Instruction::PLP(PLP)),

        0x86 => Ok(Instruction::STX(STX(AddressingMode::ZeroPage(low)))),
        0x96 => Ok(Instruction::STX(STX(AddressingMode::ZeroPageY(low)))),
        0x8E => Ok(Instruction::STX(STX(AddressingMode::Absolute(word(low, high))))),

        0x84 => Ok(Instruction::STY(STY(AddressingMode::ZeroPage(low)))),
        0x94 => Ok(Instruction::STY(STY(AddressingMode::ZeroPageX(low)))),
        0x8C => Ok(Instruction::STY(STY(AddressingMode::Absolute(word(low, high))))),

        _ => Err(IllegalOpcode(opcode)),
    }
}

/// The instruction at address `pc` of a memory with contents `memory`. The
/// operand bytes are looked for at the two addresses after `pc`, wrapping at
/// the end of the address space.
pub open spec fn fetched(memory: Seq<u8>, pc: u16) -> Result<Instruction, IllegalOpcode> {
    decoded(memory[pc as int], memory[(pc + 1) % 65536], memory[(pc + 2) % 65536])
}

/// The byte at position `i` of `bytes`, or zero past its end.
pub open spec fn byte_at(bytes: Seq<u8>, i: int) -> u8 {
    if 0 <= i < bytes.len() {
        bytes[i]
    } else {
        0
    }
}

/// Decodes the instruction that starts with the byte `opcode`, followed by
/// the bytes `low` and `high`.
pub fn decode(opcode: u8, low: u8, high: u8) -> (result: Result<Instruction, IllegalOpcode>)
    ensures
        result == decoded(opcode, low, high),
{
    match opcode {
        0x69 => Ok(Instruction::ADC(ADC(AddressingMode::Immediate(low)))),
        0x65 => Ok(Instruction::ADC(ADC(AddressingMode::ZeroPage(low)))),
        0x75 => Ok(Instruction::ADC(ADC(AddressingMode::ZeroPageX(low)))),
        0x6D => Ok(Instruction::ADC(ADC(AddressingMode::Absolute(join_bytes(low, high))))),
        0x7D => Ok(Instruction::ADC(ADC(AddressingMode::AbsoluteX(join_bytes(low, high))))),
        0x79 => Ok(Instruction::ADC(ADC(AddressingMode::AbsoluteY(join_bytes(low, high))))),
        0x61 => Ok(Instruction::ADC(ADC(AddressingMode::IndexedIndirect(low)))),
        0x71 => Ok(Instruction::ADC(ADC(AddressingMode::IndirectIndexed(low)))),

        0x29 => Ok(Instruction::AND(AND(AddressingMode::Immediate(low)))),
        0x25 => Ok(Instruction::AND(AND(AddressingMode::ZeroPage(low)))),
        0x35 => Ok(Instruction::AND(AND(AddressingMode::ZeroPageX(low)))),
        0x2D => Ok(Instruction::AND(AND(AddressingMode::Absolute(join_bytes(low, high))))),
        0x3D => Ok(Instruction::AND(AND(AddressingMode::AbsoluteX(join_bytes(low, high))))),
        0x39 => Ok(Instruction::AND(AND(AddressingMode::AbsoluteY(join_bytes(low, high))))),
        0x21 => Ok(Instruction::AND(AND(AddressingMode::IndexedIndirect(low)))),
        0x31 => Ok(Instruction::AND(AND(AddressingMode::IndirectIndexed(low)))),

        0x0A => Ok(Instruction::ASL(ASL(AddressingMode::Accumulator))),
        0x06 => Ok(Instruction::ASL(ASL(AddressingMode::ZeroPage(low)))),
        0x16 => Ok(Instruction::ASL(ASL(AddressingMode::ZeroPageX(low)))),
        0x0E => Ok(Instruction::ASL(ASL(AddressingMode::Absolute(join_bytes(low, high))))),
        0x1E => Ok(Instruction::ASL(ASL(AddressingMode::AbsoluteX(join_bytes(low, high))))),

        0x24 => Ok(Instruction::BIT(BIT(AddressingMode::ZeroPage(low)))),
        0x2C => Ok(Instruction::BIT(BIT(AddressingMode::Absolute(join_bytes(low, high))))),

        0x10 => Ok(Instruction::BPL(BPL(to_signed(low)))),

        0x30 => Ok(Instruction::BMI(BMI(to_signed(low)))),

        0x50 => Ok(Instruction::BVC(BVC(to_signed(low)))),

        0x70 => Ok(Instruction::BVS(BVS(to_signed(low)))),

        0x90 => Ok(Instruction::BCC(BCC(to_signed(low)))),

        0xB0 => Ok(Instruction::BCS(BCS(to_signed(low)))),

        0xD0 => Ok(Instruction::BNE(BNE(to_signed(low)))),

        0xF0 => Ok(Instruction::BEQ(BEQ(to_signed(low)))),

        0x00 => Ok(Instruction::BRK(BRK)),

        0xC9 => Ok(Instruction::CMP(CMP(AddressingMode::Immediate(low)))),
        0xC5 => Ok(Instruction::CMP(CMP(AddressingMode::ZeroPage(low)))),
        0xD5 => Ok(Instruction::CMP(CMP(AddressingMode::ZeroPageX(low)))),
        0xCD => Ok(Instruction::CMP(CMP(AddressingMode::Absolute(join_bytes(low, high))))),
        0xDD => Ok(Instruction::CMP(CMP(AddressingMode::AbsoluteX(join_bytes(low, high))))),
        0xD9 => Ok(Instruction::CMP(CMP(AddressingMode::AbsoluteY(join_bytes(low, high))))),
        0xC1 => Ok(Instruction::CMP(CMP(AddressingMode::IndexedIndirect(low)))),
        0xD1 => Ok(Instruction::CMP(CMP(AddressingMode::IndirectIndexed(low)))),

        0xE0 => Ok(Instruction::CPX(CPX(AddressingMode::Immediate(low)))),
        0xE4 => Ok(Instruction::CPX(CPX(AddressingMode::ZeroPage(low)))),
        0xEC => Ok(Instruction::CPX(CPX(AddressingMode::Absolute(join_bytes(low, high))))),

        0xC0 => Ok(Instruction::CPY(CPY(AddressingMode::Immediate(low)))),
        0xC4 => Ok(Instruction::CPY(CPY(AddressingMode::ZeroPage(low)))),
        0xCC => Ok(Instruction::CPY(CPY(AddressingMode::Absolute(join_bytes(low, high))))),

        0xC6 => Ok(Instruction::DEC(DEC(AddressingMode::ZeroPage(low)))),
        0xD6 => Ok(Instruction::DEC(DEC(AddressingMode::ZeroPageX(low)))),
        0xCE => Ok(Instruction::DEC(DEC(AddressingMode::Absolute(join_bytes(low, high))))),
        0xDE => Ok(Instruction::DEC(DEC(AddressingMode::AbsoluteX(join_bytes(low, high))))),

        0x49 => Ok(Instruction::EOR(EOR(AddressingMode::Immediate(low)))),
        0x45 => Ok(Instruction::EOR(EOR(AddressingMode::ZeroPage(low)))),
        0x55 => Ok(Instruction::EOR(EOR(AddressingMode::ZeroPageX(low)))),
        0x4D => Ok(Instruction::EOR(EOR(AddressingMode::Absolute(join_bytes(low, high))))),
        0x5D => Ok(Instruction::EOR(EOR(AddressingMode::AbsoluteX(join_bytes(low, high))))),
        0x59 => Ok(Instruction::EOR(EOR(AddressingMode::AbsoluteY(join_bytes(low, high))))),
        0x41 => Ok(Instruction::EOR(EOR(AddressingMode::IndexedIndirect(low)))),
        0x51 => Ok(Instruction::EOR(EOR(AddressingMode::IndirectIndexed(low)))),

        0x18 => Ok(Instruction::CLC(CLC)),

        0x38 => Ok(Instruction::SEC(SEC)),

        0x58 => Ok(Instruction::CLI(CLI)),

        0x78 => Ok(Instruction::SEI(SEI)),

        0xB8 => Ok(Instruction::CLV(CLV)),

        0xD8 => Ok(Instruction::CLD(CLD)),

        0xF8 => Ok(Instruction::SED(SED)),

        0xE6 => Ok(Instruction::INC(INC(AddressingMode::ZeroPage(low)))),
        0xF6 => Ok(Instruction::INC(INC(AddressingMode::ZeroPageX(low)))),
        0xEE => Ok(Instruction::INC(INC(AddressingMode::Absolute(join_bytes(low, high))))),
        0xFE => Ok(Instruction::INC(INC(AddressingMode::AbsoluteX(join_bytes(low, high))))),

        0x4C => Ok(Instruction::JMP(JMP(AddressingMode::Absolute(join_bytes(low, high))))),
        0x6C => Ok(Instruction::JMP(JMP(AddressingMode::Indirect(join_bytes(low, high))))),

        0x20 => Ok(Instruction::JSR(JSR(join_bytes(low, high)))),

        0xA9 => Ok(Instruction::LDA(LDA(AddressingMode::Immediate(low)))),
        0xA5 => Ok(Instruction::LDA(LDA(AddressingMode::ZeroPage(low)))),
        0xB5 => Ok(Instruction::LDA(LDA(AddressingMode::ZeroPageX(low)))),
        0xAD => Ok(Instruction::LDA(LDA(AddressingMode::Absolute(join_bytes(low, high))))),
        0xBD => Ok(Instruction::LDA(LDA(AddressingMode::AbsoluteX(join_bytes(low, high))))),
        0xB9 => Ok(Instruction::LDA(LDA(AddressingMode::AbsoluteY(join_bytes(low, high))))),
        0xA1 => Ok(Instruction::LDA(LDA(AddressingMode::IndexedIndirect(low)))),
        0xB1 => Ok(Instruction::LDA(LDA(AddressingMode::IndirectIndexed(low)))),

        0xA2 => Ok(Instruction::LDX(LDX(AddressingMode::Immediate(low)))),
        0xA6 => Ok(Instruction::LDX(LDX(AddressingMode::ZeroPage(low)))),
        0xB6 => Ok(Instruction::LDX(LDX(AddressingMode::ZeroPageY(low)))),
        0xAE => Ok(Instruction::LDX(LDX(AddressingMode::Absolute(join_bytes(low, high))))),
        0xBE => Ok(Instruction::LDX(LDX(AddressingMode::AbsoluteY(join_bytes(low, high))))),

        0xA0 => Ok(Instruction::LDY(LDY(AddressingMode::Immediate(low)))),
        0xA4 => Ok(Instruction::LDY(LDY(AddressingMode::ZeroPage(low)))),
        0xB4 => Ok(Instruction::LDY(LDY(AddressingMode::ZeroPageX(low)))),
        0xAC => Ok(Instruction::LDY(LDY(AddressingMode::Absolute(join_bytes(low, high))))),
        0xBC => Ok(Instruction::LDY(LDY(AddressingMode::AbsoluteX(join_bytes(low, high))))),

        0x4A => Ok(Instruction::LSR(LSR(AddressingMode::Accumulator))),
        0x46 => Ok(Instruction::LSR(LSR(AddressingMode::ZeroPage(low)))),
        0x56 => Ok(Instruction::LSR(LSR(AddressingMode::ZeroPageX(low)))),
        0x4E => Ok(Instruction::LSR(LSR(AddressingMode::Absolute(join_bytes(low, high))))),
        0x5E => Ok(Instruction::LSR(LSR(AddressingMode::AbsoluteX(join_bytes(low, high))))),

        0xEA => Ok(Instruction::NOP(NOP)),

        0x09 => Ok(Instruction::ORA(ORA(AddressingMode::Immediate(low)))),
        0x05 => Ok(Instruction::ORA(ORA(AddressingMode::ZeroPage(low)))),
        0x15 => Ok(Instruction::ORA(ORA(AddressingMode::ZeroPageX(low)))),
        0x0D => Ok(Instruction::ORA(ORA(AddressingMode::Absolute(join_bytes(low, high))))),
        0x1D => Ok(Instruction::ORA(ORA(AddressingMode::AbsoluteX(join_bytes(low, high))))),
        0x19 => Ok(Instruction::ORA(ORA(AddressingMode::AbsoluteY(join_bytes(low, high))))),
        0x01 => Ok(Instruction::ORA(ORA(AddressingMode::IndexedIndirect(low)))),
        0x11 => Ok(Instruction::ORA(ORA(AddressingMode::IndirectIndexed(low)))),

        0xAA => Ok(Instruction::TAX(TAX)),

        0x8A => Ok(Instruction::TXA(TXA)),

        0xCA => Ok(Instruction::DEX(DEX)),

        0xE8 => Ok(Instruction::INX(INX)),

        0xA8 => Ok(Instruction::TAY(TAY)),

        0x98 => Ok(Instruction::TYA(TYA)),

        0x88 => Ok(Instruction::DEY(DEY)),

        0xC8 => Ok(Instruction::INY(INY)),

        0x2A => Ok(Instruction::ROL(ROL(AddressingMode::Accumulator))),
        0x26 => Ok(Instruction::ROL(ROL(AddressingMode::ZeroPage(low)))),
        0x36 => Ok(Instruction::ROL(ROL(AddressingMode::ZeroPageX(low)))),
        0x2E => Ok(Instruction::ROL(ROL(AddressingMode::Absolute(join_bytes(low, high))))),
        0x3E => Ok(Instruction::ROL(ROL(AddressingMode::AbsoluteX(join_bytes(low, high))))),

        0x6A => Ok(Instruction::ROR(ROR(AddressingMode::Accumulator))),
        0x66 => Ok(Instruction::ROR(ROR(AddressingMode::ZeroPage(low)))),
        0x76 => Ok(Instruction::ROR(ROR(AddressingMode::ZeroPageX(low)))),
        0x6E => Ok(Instruction::ROR(ROR(AddressingMode::Absolute(join_bytes(low, high))))),
        0x7E => Ok(Instruction::ROR(ROR(AddressingMode::AbsoluteX(join_bytes(low, high))))),

        0x40 => Ok(Instruction::RTI(RTI)),

        0x60 => Ok(Instruction::RTS(RTS)),

        0xE9 => Ok(Instruction::SBC(SBC(AddressingMode::Immediate(low)))),
        0xE5 => Ok(Instruction::SBC(SBC(AddressingMode::ZeroPage(low)))),
        0xF5 => Ok(Instruction::SBC(SBC(AddressingMode::ZeroPageX(low)))),
        0xED => Ok(Instruction::SBC(SBC(AddressingMode::Absolute(join_bytes(low, high))))),
        0xFD => Ok(Instruction::SBC(SBC(AddressingMode::AbsoluteX(join_bytes(low, high))))),
        0xF9 => Ok(Instruction::SBC(SBC(AddressingMode::AbsoluteY(join_bytes(low, high))))),
        0xE1 => Ok(Instruction::SBC(SBC(AddressingMode::IndexedIndirect(low)))),
        0xF1 => Ok(Instruction::SBC(SBC(AddressingMode::IndirectIndexed(low)))),

        0x85 => Ok(Instruction::STA(STA(AddressingMode::ZeroPage(low)))),
        0x95 => Ok(Instruction::STA(STA(AddressingMode::ZeroPageX(low)))),
        0x8D => Ok(Instruction::STA(STA(AddressingMode::Absolute(join_bytes(low, high))))),
        0x9D => Ok(Instruction::STA(STA(AddressingMode::AbsoluteX(join_bytes(low, high))))),
        0x99 => Ok(Instruction::STA(STA(AddressingMode::AbsoluteY(join_bytes(low, high))))),
        0x81 => Ok(Instruction::STA(STA(AddressingMode::IndexedIndirect(low)))),
        0x91 => Ok(Instruction::STA(STA(AddressingMode::IndirectIndexed(low)))),

        0x9A => Ok(Instruction::TXS(TXS)),

        0xBA => Ok(Instruction::TSX(TSX)),

        0x48 => Ok(Instruction::PHA(PHA)),

        0x68 => Ok(Instruction::PLA(PLA)),

        0x08 => Ok(Instruction::PHP(PHP)),

        0x28 => Ok(Instruction::PLP(PLP)),

        0x86 => Ok(Instruction::STX(STX(AddressingMode::ZeroPage(low)))),
        0x96 => Ok(Instruction::STX(STX(AddressingMode::ZeroPageY(low)))),
        0x8E => Ok(Instruction::STX(STX(AddressingMode::Absolute(join_bytes(low, high))))),

        0x84 => Ok(Instruction::STY(STY(AddressingMode::ZeroPage(low)))),
        0x94 => Ok(Instruction::STY(STY(AddressingMode::ZeroPageX(low)))),
        0x8C => Ok(Instruction::STY(STY(AddressingMode::Absolute(join_bytes(low, high))))),

        _ => Err(IllegalOpcode(opcode)),
    }
}

/// Decodes the instruction at address `pc` of `memory`.
pub fn interp(memory: &Memory, pc: u16) -> (result: Result<Instruction, IllegalOpcode>)
    ensures
        result == fetched(memory@, pc),
{
    let opcode = memory.absolute(pc);
    let low = memory.absolute(pc.wrapping_add(1));
    let high = memory.absolute(pc.wrapping_add(2));
    decode(opcode, low, high)
}

/// The instruction that a stream of machine code starts with. Bytes that
/// the stream is too short to hold are read as zero.
pub open spec fn decoded_stream(bytes: Seq<u8>) -> Result<Instruction, IllegalOpcode> {
    decoded(byte_at(bytes, 0), byte_at(bytes, 1), byte_at(bytes, 2))
}

/// Decoding inverts encoding: the machine code of a legal instruction,
/// followed by any bytes, decodes to that instruction. The machine code is
/// the opcode and as many bytes as the operand takes.
#[verifier::rlimit(50)]
pub proof fn lemma_decode_encoding(instruction: Instruction, rest: Seq<u8>)
    requires
        instruction.legal(),
    ensures
        instruction.encoding().len() == 1 + instruction.operand_len(),
        decoded_stream(instruction.encoding() + rest) == Ok::<Instruction, IllegalOpcode>(
            instruction,
        ),
{
}

/// Encoding inverts decoding: an instruction that the decoder returns is
/// legal, and its machine code is the bytes that the decoder used.
#[verifier::rlimit(50)]
pub proof fn lemma_encoding_of_decoded(opcode: u8, low: u8, high: u8)
    ensures
        decoded(opcode, low, high) matches Ok(instruction) ==> {
            &&& instruction.legal()
            &&& instruction.encoding() == seq![opcode, low, high].take(
                1 + instruction.operand_len(),
            )
        },
{
    if let Ok(instruction) = decoded(opcode, low, high) {
        assert(instruction.encoding() =~= seq![opcode, low, high].take(
            1 + instruction.operand_len(),
        ));
    }
}

/// A byte is refused by the decoder exactly when no legal instruction has
/// it as its opcode.
#[verifier::rlimit(50)]
pub proof fn lemma_illegal_opcode(opcode: u8, low: u8, high: u8, instruction: Instruction)
    requires
        decoded(opcode, low, high) is Err,
        instruction.legal(),
    ensures
        decoded(opcode, low, high) == Err::<Instruction, IllegalOpcode>(IllegalOpcode(opcode)),
        instruction.encoding()[0] != opcode,
{
}

} // verus!
