//! The instruction set.
//!
//! Each mnemonic is a type of its own. A mnemonic that takes an operand holds
//! its [`AddressingMode`]; its `legal` predicate says which modes it accepts,
//! and it is executed and encoded only in those. [`Instruction`] is the sum
//! of all mnemonics, as the decoder returns it.
//!
//! Every mnemonic states what it does as a function `effect` from the
//! machine state before to the machine state after, and `evaluate` is proved
//! to compute exactly that.

pub mod addressing;
pub mod alu;
pub mod arithmetic;
pub mod compare;
pub mod control;
pub mod interp;
pub mod logical;
pub mod stack;
pub mod status;
pub mod transfer;

pub use arithmetic::{ADC, DEC, DEX, DEY, INC, INX, INY, SBC};
pub use compare::{CMP, CPX, CPY};
pub use control::{BCC, BCS, BEQ, BMI, BNE, BPL, BRK, BVC, BVS, JMP, JSR, NOP, RTI, RTS};
pub use logical::{AND, ASL, BIT, EOR, LSR, ORA, ROL, ROR};
pub use stack::{PHA, PHP, PLA, PLP};
pub use status::{CLC, CLD, CLI, CLV, SEC, SED, SEI};
pub use transfer::{LDA, LDX, LDY, STA, STX, STY, TAX, TAY, TSX, TXA, TXS, TYA};

use crate::memory::Memory;
use crate::registers::Registers;
use crate::state::State;
use addressing::AddressingMode;
use vstd::prelude::*;

verus! {

/// One instruction: a mnemonic with the operand captured when it was decoded
/// or built.
#[derive(Clone, Copy, Debug, PartialEq, Eq, Structural)]
pub enum Instruction {
    ADC(ADC),
    AND(AND),
    ASL(ASL),
    BIT(BIT),
    BPL(BPL),
    BMI(BMI),
    BVC(BVC),
    BVS(BVS),
    BCC(BCC),
    BCS(BCS),
    BNE(BNE),
    BEQ(BEQ),
    BRK(BRK),
    CMP(CMP),
    CPX(CPX),
    CPY(CPY),
    DEC(DEC),
    EOR(EOR),
    CLC(CLC),
    SEC(SEC),
    CLI(CLI),
    SEI(SEI),
    CLV(CLV),
    CLD(CLD),
    SED(SED),
    INC(INC),
    JMP(JMP),
    JSR(JSR),
    LDA(LDA),
    LDX(LDX),
    LDY(LDY),
    LSR(LSR),
    NOP(NOP),
    ORA(ORA),
    TAX(TAX),
    TXA(TXA),
    DEX(DEX),
    INX(INX),
    TAY(TAY),
    TYA(TYA),
    DEY(DEY),
    INY(INY),
    ROL(ROL),
    ROR(ROR),
    RTI(RTI),
    RTS(RTS),
    SBC(SBC),
    STA(STA),
    TXS(TXS),
    TSX(TSX),
    PHA(PHA),
    PLA(PLA),
    PHP(PHP),
    PLP(PLP),
    STX(STX),
    STY(STY),
}

/// The opcode `op` followed by the operand bytes of `mode`.
pub fn encode(op: Option<u8>, mode: &AddressingMode) -> (bytes: Vec<u8>)
    requires
        op is Some,
    ensures
        bytes@ == seq![op.unwrap()] + mode.operand_bytes(),
{
    let mut bytes: Vec<u8> = Vec::new();
    bytes.push(op.unwrap());
    let mut operand = mode.render();
    bytes.append(&mut operand);
    assert(bytes@ =~= seq![op.unwrap()] + mode.operand_bytes());
    bytes
}

impl Instruction {
    /// Whether the instruction pairs its mnemonic with an addressing mode
    /// that the mnemonic accepts. A mnemonic without an addressing mode is
    /// always legal.
    pub open spec fn legal(&self) -> bool {
        match self {
            Instruction::ADC(inner) => inner.legal(),
            Instruction::AND(inner) => inner.legal(),
            Instruction::ASL(inner) => inner.legal(),
            Instruction::BIT(inner) => inner.legal(),
            Instruction::BPL(_) => true,
            Instruction::BMI(_) => true,
            Instruction::BVC(_) => true,
            Instruction::BVS(_) => true,
            Instruction::BCC(_) => true,
            Instruction::BCS(_) => true,
            Instruction::BNE(_) => true,
            Instruction::BEQ(_) => true,
            Instruction::BRK(_) => true,
            Instruction::CMP(inner) => inner.legal(),
            Instruction::CPX(inner) => inner.legal(),
            Instruction::CPY(inner) => inner.legal(),
            Instruction::DEC(inner) => inner.legal(),
            Instruction::EOR(inner) => inner.legal(),
            Instruction::CLC(_) => true,
            Instruction::SEC(_) => true,
            Instruction::CLI(_) => true,
            Instruction::SEI(_) => true,
            Instruction::CLV(_) => true,
            Instruction::CLD(_) => true,
            Instruction::SED(_) => true,
            Instruction::INC(inner) => inner.legal(),
            Instruction::JMP(inner) => inner.legal(),
            Instruction::JSR(_) => true,
            Instruction::LDA(inner) => inner.legal(),
            Instruction::LDX(inner) => inner.legal(),
            Instruction::LDY(inner) => inner.legal(),
            Instruction::LSR(inner) => inner.legal(),
            Instruction::NOP(_) => true,
            Instruction::ORA(inner) => inner.legal(),
            Instruction::TAX(_) => true,
            Instruction::TXA(_) => true,
            Instruction::DEX(_) => true,
            Instruction::INX(_) => true,
            Instruction::TAY(_) => true,
            Instruction::TYA(_) => true,
            Instruction::DEY(_) => true,
            Instruction::INY(_) => true,
            Instruction::ROL(inner) => inner.legal(),
            Instruction::ROR(inner) => inner.legal(),
            Instruction::RTI(_) => true,
            Instruction::RTS(_) => true,
            Instruction::SBC(inner) => inner.legal(),
            Instruction::STA(inner) => inner.legal(),
            Instruction::TXS(_) => true,
            Instruction::TSX(_) => true,
            Instruction::PHA(_) => true,
            Instruction::PLA(_) => true,
            Instruction::PHP(_) => true,
            Instruction::PLP(_) => true,
            Instruction::STX(inner) => inner.legal(),
            Instruction::STY(inner) => inner.legal(),
        }
    }

    /// Whether the instruction can be executed: it is legal, and where it
    /// stores its result through the addressing mode (ORA, EOR), the mode
    /// can be written.
    pub open spec fn can_evaluate(&self) -> bool {
        &&& self.legal()
        &&& self matches Instruction::ORA(inner) ==> inner.0.can_write()
        &&& self matches Instruction::EOR(inner) ==> inner.0.can_write()
    }

    /// Number of operand bytes that follow the opcode.
    pub open spec fn operand_len(&self) -> int {
        match self {
            Instruction::ADC(inner) => inner.0.operand_len(),
            Instruction::AND(inner) => inner.0.operand_len(),
            Instruction::ASL(inner) => inner.0.operand_len(),
            Instruction::BIT(inner) => inner.0.operand_len(),
            Instruction::BPL(_) => 1,
            Instruction::BMI(_) => 1,
            Instruction::BVC(_) => 1,
            Instruction::BVS(_) => 1,
            Instruction::BCC(_) => 1,
            Instruction::BCS(_) => 1,
            Instruction::BNE(_) => 1,
            Instruction::BEQ(_) => 1,
            Instruction::BRK(_) => 0,
            Instruction::CMP(inner) => inner.0.operand_len(),
            Instruction::CPX(inner) => inner.0.operand_len(),
            Instruction::CPY(inner) => inner.0.operand_len(),
            Instruction::DEC(inner) => inner.0.operand_len(),
            Instruction::EOR(inner) => inner.0.operand_len(),
            Instruction::CLC(_) => 0,
            Instruction::SEC(_) => 0,
            Instruction::CLI(_) => 0,
            Instruction::SEI(_) => 0,
            Instruction::CLV(_) => 0,
            Instruction::CLD(_) => 0,
            Instruction::SED(_) => 0,
            Instruction::INC(inner) => inner.0.operand_len(),
            Instruction::JMP(inner) => inner.0.operand_len(),
            Instruction::JSR(_) => 2,
            Instruction::LDA(inner) => inner.0.operand_len(),
            Instruction::LDX(inner) => inner.0.operand_len(),
            Instruction::LDY(inner) => inner.0.operand_len(),
            Instruction::LSR(inner) => inner.0.operand_len(),
            Instruction::NOP(_) => 0,
            Instruction::ORA(inner) => inner.0.operand_len(),
            Instruction::TAX(_) => 0,
            Instruction::TXA(_) => 0,
            Instruction::DEX(_) => 0,
            Instruction::INX(_) => 0,
            Instruction::TAY(_) => 0,
            Instruction::TYA(_) => 0,
            Instruction::DEY(_) => 0,
            Instruction::INY(_) => 0,
            Instruction::ROL(inner) => inner.0.operand_len(),
            Instruction::ROR(inner) => inner.0.operand_len(),
            Instruction::RTI(_) => 0,
            Instruction::RTS(_) => 0,
            Instruction::SBC(inner) => inner.0.operand_len(),
            Instruction::STA(inner) => inner.0.operand_len(),
            Instruction::TXS(_) => 0,
            Instruction::TSX(_) => 0,
            Instruction::PHA(_) => 0,
            Instruction::PLA(_) => 0,
            Instruction::PHP(_) => 0,
            Instruction::PLP(_) => 0,
            Instruction::STX(inner) => inner.0.operand_len(),
            Instruction::STY(inner) => inner.0.operand_len(),
        }
    }

    /// The machine code of the instruction: the opcode, then the operand
    /// bytes, a 16-bit operand with its low byte first.
    pub open spec fn encoding(&self) -> Seq<u8> {
        match self {
            Instruction::ADC(inner) => inner.encoding(),
            Instruction::AND(inner) => inner.encoding(),
            Instruction::ASL(inner) => inner.encoding(),
            Instruction::BIT(inner) => inner.encoding(),
            Instruction::BPL(inner) => inner.encoding(),
            Instruction::BMI(inner) => inner.encoding(),
            Instruction::BVC(inner) => inner.encoding(),
            Instruction::BVS(inner) => inner.encoding(),
            Instruction::BCC(inner) => inner.encoding(),
            Instruction::BCS(inner) => inner.encoding(),
            Instruction::BNE(inner) => inner.encoding(),
            Instruction::BEQ(inner) => inner.encoding(),
            Instruction::BRK(inner) => inner.encoding(),
            Instruction::CMP(inner) => inner.encoding(),
            Instruction::CPX(inner) => inner.encoding(),
            Instruction::CPY(inner) => inner.encoding(),
            Instruction::DEC(inner) => inner.encoding(),
            Instruction::EOR(inner) => inner.encoding(),
            Instruction::CLC(inner) => inner.encoding(),
            Instruction::SEC(inner) => inner.encoding(),
            Instruction::CLI(inner) => inner.encoding(),
            Instruction::SEI(inner) => inner.encoding(),
            Instruction::CLV(inner) => inner.encoding(),
            Instruction::CLD(inner) => inner.encoding(),
            Instruction::SED(inner) => inner.encoding(),
            Instruction::INC(inner) => inner.encoding(),
            Instruction::JMP(inner) => inner.encoding(),
            Instruction::JSR(inner) => inner.encoding(),
            Instruction::LDA(inner) => inner.encoding(),
            Instruction::LDX(inner) => inner.encoding(),
            Instruction::LDY(inner) => inner.encoding(),
            Instruction::LSR(inner) => inner.encoding(),
            Instruction::NOP(inner) => inner.encoding(),
            Instruction::ORA(inner) => inner.encoding(),
            Instruction::TAX(inner) => inner.encoding(),
            Instruction::TXA(inner) => inner.encoding(),
            Instruction::DEX(inner) => inner.encoding(),
            Instruction::INX(inner) => inner.encoding(),
            Instruction::TAY(inner) => inner.encoding(),
            Instruction::TYA(inner) => inner.encoding(),
            Instruction::DEY(inner) => inner.encoding(),
            Instruction::INY(inner) => inner.encoding(),
            Instruction::ROL(inner) => inner.encoding(),
            Instruction::ROR(inner) => inner.encoding(),
            Instruction::RTI(inner) => inner.encoding(),
            Instruction::RTS(inner) => inner.encoding(),
            Instruction::SBC(inner) => inner.encoding(),
            Instruction::STA(inner) => inner.encoding(),
            Instruction::TXS(inner) => inner.encoding(),
            Instruction::TSX(inner) => inner.encoding(),
            Instruction::PHA(inner) => inner.encoding(),
            Instruction::PLA(inner) => inner.encoding(),
            Instruction::PHP(inner) => inner.encoding(),
            Instruction::PLP(inner) => inner.encoding(),
            Instruction::STX(inner) => inner.encoding(),
            Instruction::STY(inner) => inner.encoding(),
        }
    }

    /// The machine state after the instruction has run in state `s`.
    pub open spec fn effect(&self, s: State) -> State {
        match self {
            Instruction::ADC(inner) => inner.effect(s),
            Instruction::AND(inner) => inner.effect(s),
            Instruction::ASL(inner) => inner.effect(s),
            Instruction::BIT(inner) => inner.effect(s),
            Instruction::BPL(inner) => inner.effect(s),
            Instruction::BMI(inner) => inner.effect(s),
            Instruction::BVC(inner) => inner.effect(s),
            Instruction::BVS(inner) => inner.effect(s),
            Instruction::BCC(inner) => inner.effect(s),
            Instruction::BCS(inner) => inner.effect(s),
            Instruction::BNE(inner) => inner.effect(s),
            Instruction::BEQ(inner) => inner.effect(s),
            Instruction::BRK(inner) => inner.effect(s),
            Instruction::CMP(inner) => inner.effect(s),
            Instruction::CPX(inner) => inner.effect(s),
            Instruction::CPY(inner) => inner.effect(s),
            Instruction::DEC(inner) => inner.effect(s),
            Instruction::EOR(inner) => inner.effect(s),
            Instruction::CLC(inner) => inner.effect(s),
            Instruction::SEC(inner) => inner.effect(s),
            Instruction::CLI(inner) => inner.effect(s),
            Instruction::SEI(inner) => inner.effect(s),
            Instruction::CLV(inner) => inner.effect(s),
            Instruction::CLD(inner) => inner.effect(s),
            Instruction::SED(inner) => inner.effect(s),
            Instruction::INC(inner) => inner.effect(s),
            Instruction::JMP(inner) => inner.effect(s),
            Instruction::JSR(inner) => inner.effect(s),
            Instruction::LDA(inner) => inner.effect(s),
            Instruction::LDX(inner) => inner.effect(s),
            Instruction::LDY(inner) => inner.effect(s),
            Instruction::LSR(inner) => inner.effect(s),
            Instruction::NOP(inner) => inner.effect(s),
            Instruction::ORA(inner) => inner.effect(s),
            Instruction::TAX(inner) => inner.effect(s),
            Instruction::TXA(inner) => inner.effect(s),
            Instruction::DEX(inner) => inner.effect(s),
            Instruction::INX(inner) => inner.effect(s),
            Instruction::TAY(inner) => inner.effect(s),
            Instruction::TYA(inner) => inner.effect(s),
            Instruction::DEY(inner) => inner.effect(s),
            Instruction::INY(inner) => inner.effect(s),
            Instruction::ROL(inner) => inner.effect(s),
            Instruction::ROR(inner) => inner.effect(s),
            Instruction::RTI(inner) => inner.effect(s),
            Instruction::RTS(inner) => inner.effect(s),
            Instruction::SBC(inner) => inner.effect(s),
            Instruction::STA(inner) => inner.effect(s),
            Instruction::TXS(inner) => inner.effect(s),
            Instruction::TSX(inner) => inner.effect(s),
            Instruction::PHA(inner) => inner.effect(s),
            Instruction::PLA(inner) => inner.effect(s),
            Instruction::PHP(inner) => inner.effect(s),
            Instruction::PLP(inner) => inner.effect(s),
            Instruction::STX(inner) => inner.effect(s),
            Instruction::STY(inner) => inner.effect(s),
        }
    }

    /// Tells whether the instruction is legal.
    pub fn is_legal(&self) -> (legal: bool)
        ensures
            legal == self.legal(),
    {
        match self {
            Instruction::ADC(inner) => inner.opcode().is_some(),
            Instruction::AND(inner) => inner.opcode().is_some(),
            Instruction::ASL(inner) => inner.opcode().is_some(),
            Instruction::BIT(inner) => inner.opcode().is_some(),
            Instruction::BPL(_) => true,
            Instruction::BMI(_) => true,
            Instruction::BVC(_) => true,
            Instruction::BVS(_) => true,
            Instruction::BCC(_) => true,
            Instruction::BCS(_) => true,
            Instruction::BNE(_) => true,
            Instruction::BEQ(_) => true,
            Instruction::BRK(_) => true,
            Instruction::CMP(inner) => inner.opcode().is_some(),
            Instruction::CPX(inner) => inner.opcode().is_some(),
            Instruction::CPY(inner) => inner.opcode().is_some(),
            Instruction::DEC(inner) => inner.opcode().is_some(),
            Instruction::EOR(inner) => inner.opcode().is_some(),
            Instruction::CLC(_) => true,
            Instruction::SEC(_) => true,
            Instruction::CLI(_) => true,
            Instruction::SEI(_) => true,
            Instruction::CLV(_) => true,
            Instruction::CLD(_) => true,
            Instruction::SED(_) => true,
            Instruction::INC(inner) => inner.opcode().is_some(),
            Instruction::JMP(inner) => inner.opcode().is_some(),
            Instruction::JSR(_) => true,
            Instruction::LDA(inner) => inner.opcode().is_some(),
            Instruction::LDX(inner) => inner.opcode().is_some(),
            Instruction::LDY(inner) => inner.opcode().is_some(),
            Instruction::LSR(inner) => inner.opcode().is_some(),
            Instruction::NOP(_) => true,
            Instruction::ORA(inner) => inner.opcode().is_some(),
            Instruction::TAX(_) => true,
            Instruction::TXA(_) => true,
            Instruction::DEX(_) => true,
            Instruction::INX(_) => true,
            Instruction::TAY(_) => true,
            Instruction::TYA(_) => true,
            Instruction::DEY(_) => true,
            Instruction::INY(_) => true,
            Instruction::ROL(inner) => inner.opcode().is_some(),
            Instruction::ROR(inner) => inner.opcode().is_some(),
            Instruction::RTI(_) => true,
            Instruction::RTS(_) => true,
            Instruction::SBC(inner) => inner.opcode().is_some(),
            Instruction::STA(inner) => inner.opcode().is_some(),
            Instruction::TXS(_) => true,
            Instruction::TSX(_) => true,
            Instruction::PHA(_) => true,
            Instruction::PLA(_) => true,
            Instruction::PHP(_) => true,
            Instruction::PLP(_) => true,
            Instruction::STX(inner) => inner.opcode().is_some(),
            Instruction::STY(inner) => inner.opcode().is_some(),
        }
    }

    /// Tells whether the instruction can be executed.
    pub fn is_evaluable(&self) -> (evaluable: bool)
        ensures
            evaluable == self.can_evaluate(),
    {
        match self {
            Instruction::ORA(inner) => inner.opcode().is_some() && !matches!(
                inner.0,
                AddressingMode::Immediate(_)
            ),
            Instruction::EOR(inner) => inner.opcode().is_some() && !matches!(
                inner.0,
                AddressingMode::Immediate(_)
            ),
            _ => self.is_legal(),
        }
    }

    /// Number of bytes of the encoded instruction: the opcode and its
    /// operand bytes.
    pub fn length(&self) -> (len: u16)
        ensures
            len == 1 + self.operand_len(),
    {
        match self {
            Instruction::ADC(inner) => 1 + inner.0.length(),
            Instruction::AND(inner) => 1 + inner.0.length(),
            Instruction::ASL(inner) => 1 + inner.0.length(),
            Instruction::BIT(inner) => 1 + inner.0.length(),
            Instruction::BPL(_) => 2,
            Instruction::BMI(_) => 2,
            Instruction::BVC(_) => 2,
            Instruction::BVS(_) => 2,
            Instruction::BCC(_) => 2,
            Instruction::BCS(_) => 2,
            Instruction::BNE(_) => 2,
            Instruction::BEQ(_) => 2,
            Instruction::BRK(_) => 1,
            Instruction::CMP(inner) => 1 + inner.0.length(),
            Instruction::CPX(inner) => 1 + inner.0.length(),
            Instruction::CPY(inner) => 1 + inner.0.length(),
            Instruction::DEC(inner) => 1 + inner.0.length(),
            Instruction::EOR(inner) => 1 + inner.0.length(),
            Instruction::CLC(_) => 1,
            Instruction::SEC(_) => 1,
            Instruction::CLI(_) => 1,
            Instruction::SEI(_) => 1,
            Instruction::CLV(_) => 1,
            Instruction::CLD(_) => 1,
            Instruction::SED(_) => 1,
            Instruction::INC(inner) => 1 + inner.0.length(),
            Instruction::JMP(inner) => 1 + inner.0.length(),
            Instruction::JSR(_) => 3,
            Instruction::LDA(inner) => 1 + inner.0.length(),
            Instruction::LDX(inner) => 1 + inner.0.length(),
            Instruction::LDY(inner) => 1 + inner.0.length(),
            Instruction::LSR(inner) => 1 + inner.0.length(),
            Instruction::NOP(_) => 1,
            Instruction::ORA(inner) => 1 + inner.0.length(),
            Instruction::TAX(_) => 1,
            Instruction::TXA(_) => 1,
            Instruction::DEX(_) => 1,
            Instruction::INX(_) => 1,
            Instruction::TAY(_) => 1,
            Instruction::TYA(_) => 1,
            Instruction::DEY(_) => 1,
            Instruction::INY(_) => 1,
            Instruction::ROL(inner) => 1 + inner.0.length(),
            Instruction::ROR(inner) => 1 + inner.0.length(),
            Instruction::RTI(_) => 1,
            Instruction::RTS(_) => 1,
            Instruction::SBC(inner) => 1 + inner.0.length(),
            Instruction::STA(inner) => 1 + inner.0.length(),
            Instruction::TXS(_) => 1,
            Instruction::TSX(_) => 1,
            Instruction::PHA(_) => 1,
            Instruction::PLA(_) => 1,
            Instruction::PHP(_) => 1,
            Instruction::PLP(_) => 1,
            Instruction::STX(inner) => 1 + inner.0.length(),
            Instruction::STY(inner) => 1 + inner.0.length(),
        }
    }

    /// Executes the instruction on the machine made of `memory` and
    /// `registers`.
    pub fn evaluate(&self, memory: &mut Memory, registers: &mut Registers)
        requires
            self.can_evaluate(),
        ensures
            State::of(*final(memory), *final(registers)) == self.effect(
                State::of(*old(memory), *old(registers)),
            ),
    {
        match self {
            Instruction::ADC(inner) => inner.evaluate(memory, registers),
            Instruction::AND(inner) => inner.evaluate(memory, registers),
            Instruction::ASL(inner) => inner.evaluate(memory, registers),
            Instruction::BIT(inner) => inner.evaluate(memory, registers),
            Instruction::BPL(inner) => inner.evaluate(memory, registers),
            Instruction::BMI(inner) => inner.evaluate(memory, registers),
            Instruction::BVC(inner) => inner.evaluate(memory, registers),
            Instruction::BVS(inner) => inner.evaluate(memory, registers),
            Instruction::BCC(inner) => inner.evaluate(memory, registers),
            Instruction::BCS(inner) => inner.evaluate(memory, registers),
            Instruction::BNE(inner) => inner.evaluate(memory, registers),
            Instruction::BEQ(inner) => inner.evaluate(memory, registers),
            Instruction::BRK(inner) => inner.evaluate(memory, registers),
            Instruction::CMP(inner) => inner.evaluate(memory, registers),
            Instruction::CPX(inner) => inner.evaluate(memory, registers),
            Instruction::CPY(inner) => inner.evaluate(memory, registers),
            Instruction::DEC(inner) => inner.evaluate(memory, registers),
            Instruction::EOR(inner) => inner.evaluate(memory, registers),
            Instruction::CLC(inner) => inner.evaluate(memory, registers),
            Instruction::SEC(inner) => inner.evaluate(memory, registers),
            Instruction::CLI(inner) => inner.evaluate(memory, registers),
            Instruction::SEI(inner) => inner.evaluate(memory, registers),
            Instruction::CLV(inner) => inner.evaluate(memory, registers),
            Instruction::CLD(inner) => inner.evaluate(memory, registers),
            Instruction::SED(inner) => inner.evaluate(memory, registers),
            Instruction::INC(inner) => inner.evaluate(memory, registers),
            Instruction::JMP(inner) => inner.evaluate(memory, registers),
            Instruction::JSR(inner) => inner.evaluate(memory, registers),
            Instruction::LDA(inner) => inner.evaluate(memory, registers),
            Instruction::LDX(inner) => inner.evaluate(memory, registers),
            Instruction::LDY(inner) => inner.evaluate(memory, registers),
            Instruction::LSR(inner) => inner.evaluate(memory, registers),
            Instruction::NOP(inner) => inner.evaluate(memory, registers),
            Instruction::ORA(inner) => inner.evaluate(memory, registers),
            Instruction::TAX(inner) => inner.evaluate(memory, registers),
            Instruction::TXA(inner) => inner.evaluate(memory, registers),
            Instruction::DEX(inner) => inner.evaluate(memory, registers),
            Instruction::INX(inner) => inner.evaluate(memory, registers),
            Instruction::TAY(inner) => inner.evaluate(memory, registers),
            Instruction::TYA(inner) => inner.evaluate(memory, registers),
            Instruction::DEY(inner) => inner.evaluate(memory, registers),
            Instruction::INY(inner) => inner.evaluate(memory, registers),
            Instruction::ROL(inner) => inner.evaluate(memory, registers),
            Instruction::ROR(inner) => inner.evaluate(memory, registers),
            Instruction::RTI(inner) => inner.evaluate(memory, registers),
            Instruction::RTS(inner) => inner.evaluate(memory, registers),
            Instruction::SBC(inner) => inner.evaluate(memory, registers),
            Instruction::STA(inner) => inner.evaluate(memory, registers),
            Instruction::TXS(inner) => inner.evaluate(memory, registers),
            Instruction::TSX(inner) => inner.evaluate(memory, registers),
            Instruction::PHA(inner) => inner.evaluate(memory, registers),
            Instruction::PLA(inner) => inner.evaluate(memory, registers),
            Instruction::PHP(inner) => inner.evaluate(memory, registers),
            Instruction::PLP(inner) => inner.evaluate(memory, registers),
            Instruction::STX(inner) => inner.evaluate(memory, registers),
            Instruction::STY(inner) => inner.evaluate(memory, registers),
        }
    }

    /// The machine code of the instruction.
    pub fn render(&self) -> (bytes: Vec<u8>)
        requires
            self.legal(),
        ensures
            bytes@ == self.encoding(),
    {
        match self {
            Instruction::ADC(inner) => inner.render(),
            Instruction::AND(inner) => inner.render(),
            Instruction::ASL(inner) => inner.render(),
            Instruction::BIT(inner) => inner.render(),
            Instruction::BPL(inner) => inner.render(),
            Instruction::BMI(inner) => inner.render(),
            Instruction::BVC(inner) => inner.render(),
            Instruction::BVS(inner) => inner.render(),
            Instruction::BCC(inner) => inner.render(),
            Instruction::BCS(inner) => inner.render(),
            Instruction::BNE(inner) => inner.render(),
            Instruction::BEQ(inner) => inner.render(),
            Instruction::BRK(inner) => inner.render(),
            Instruction::CMP(inner) => inner.render(),
            Instruction::CPX(inner) => inner.render(),
            Instruction::CPY(inner) => inner.render(),
            Instruction::DEC(inner) => inner.render(),
            Instruction::EOR(inner) => inner.render(),
            Instruction::CLC(inner) => inner.render(),
            Instruction::SEC(inner) => inner.render(),
            Instruction::CLI(inner) => inner.render(),
            Instruction::SEI(inner) => inner.render(),
            Instruction::CLV(inner) => inner.render(),
            Instruction::CLD(inner) => inner.render(),
            Instruction::SED(inner) => inner.render(),
            Instruction::INC(inner) => inner.render(),
            Instruction::JMP(inner) => inner.render(),
            Instruction::JSR(inner) => inner.render(),
            Instruction::LDA(inner) => inner.render(),
            Instruction::LDX(inner) => inner.render(),
            Instruction::LDY(inner) => inner.render(),
            Instruction::LSR(inner) => inner.render(),
            Instruction::NOP(inner) => inner.render(),
            Instruction::ORA(inner) => inner.render(),
            Instruction::TAX(inner) => inner.render(),
            Instruction::TXA(inner) => inner.render(),
            Instruction::DEX(inner) => inner.render(),
            Instruction::INX(inner) => inner.render(),
            Instruction::TAY(inner) => inner.render(),
            Instruction::TYA(inner) => inner.render(),
            Instruction::DEY(inner) => inner.render(),
            Instruction::INY(inner) => inner.render(),
            Instruction::ROL(inner) => inner.render(),
            Instruction::ROR(inner) => inner.render(),
            Instruction::RTI(inner) => inner.render(),
            Instruction::RTS(inner) => inner.render(),
            Instruction::SBC(inner) => inner.render(),
            Instruction::STA(inner) => inner.render(),
            Instruction::TXS(inner) => inner.render(),
            Instruction::TSX(inner) => inner.render(),
            Instruction::PHA(inner) => inner.render(),
            Instruction::PLA(inner) => inner.render(),
            Instruction::PHP(inner) => inner.render(),
            Instruction::PLP(inner) => inner.render(),
            Instruction::STX(inner) => inner.render(),
            Instruction::STY(inner) => inner.render(),
        }
    }
}

} // verus!
