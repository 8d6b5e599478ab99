//! Addressing modes: where the operand of an instruction lives.

use crate::memory::{
    absolute_indexed, indexed_indirect_address, indirect_indexed_address, indirect_target,
    zero_page_indexed, Memory,
};
use crate::registers::{Accumulator, Registers};
use crate::state::State;
use vstd::pervasive::unreached;
use vstd::prelude::*;

verus! {

/// The place of an operand, with the operand bytes of the instruction.
#[derive(Clone, Copy, Debug, PartialEq, Eq, Structural)]
pub enum AddressingMode {
    /// The accumulator itself.
    Accumulator,
    /// A literal byte. It can be read, not written.
    Immediate(u8),
    /// The byte at an address in page zero.
    ZeroPage(u8),
    /// The byte at a page-zero address plus X, kept within page zero.
    ZeroPageX(u8),
    /// The byte at a page-zero address plus Y, kept within page zero.
    ZeroPageY(u8),
    /// The byte at a 16-bit address. As a jump target, the address itself.
    Absolute(u16),
    /// The byte at a 16-bit address plus X.
    AbsoluteX(u16),
    /// The byte at a 16-bit address plus Y.
    AbsoluteY(u16),
    /// Jump target only: the address stored at a 16-bit address.
    Indirect(u16),
    /// The byte that the pointer at a page-zero address plus X points to.
    IndexedIndirect(u8),
    /// The byte Y places after where the pointer at a page-zero address
    /// points to.
    IndirectIndexed(u8),
}

impl AddressingMode {
    /// Number of operand bytes that the mode takes in an encoded instruction.
    pub open spec fn operand_len(&self) -> int {
        match self {
            AddressingMode::Accumulator => 0,
            AddressingMode::Immediate(_) => 1,
            AddressingMode::ZeroPage(_) => 1,
            AddressingMode::ZeroPageX(_) => 1,
            AddressingMode::ZeroPageY(_) => 1,
            AddressingMode::Absolute(_) => 2,
            AddressingMode::AbsoluteX(_) => 2,
            AddressingMode::AbsoluteY(_) => 2,
            AddressingMode::Indirect(_) => 2,
            AddressingMode::IndexedIndirect(_) => 1,
            AddressingMode::IndirectIndexed(_) => 1,
        }
    }

    /// The operand bytes of the mode: none, one byte, or a 16-bit value with
    /// its low byte first.
    pub open spec fn operand_bytes(&self) -> Seq<u8> {
        match self {
            AddressingMode::Accumulator => seq![],
            AddressingMode::Immediate(value) => seq![*value],
            AddressingMode::ZeroPage(addr) => seq![*addr],
            AddressingMode::ZeroPageX(addr) => seq![*addr],
            AddressingMode::ZeroPageY(addr) => seq![*addr],
            AddressingMode::Absolute(addr) => seq![(*addr % 256) as u8, (*addr / 256) as u8],
            AddressingMode::AbsoluteX(addr) => seq![(*addr % 256) as u8, (*addr / 256) as u8],
            AddressingMode::AbsoluteY(addr) => seq![(*addr % 256) as u8, (*addr / 256) as u8],
            AddressingMode::Indirect(addr) => seq![(*addr % 256) as u8, (*addr / 256) as u8],
            AddressingMode::IndexedIndirect(addr) => seq![*addr],
            AddressingMode::IndirectIndexed(addr) => seq![*addr],
        }
    }

    /// The effective address: the memory location that the mode resolves to
    /// in state `s`. The accumulator and a literal have none.
    pub open spec fn effective_address(&self, s: State) -> Option<int> {
        match self {
            AddressingMode::Accumulator => None,
            AddressingMode::Immediate(_) => None,
            AddressingMode::ZeroPage(addr) => Some(*addr as int),
            AddressingMode::ZeroPageX(addr) => Some(zero_page_indexed(*addr, s.registers.x.value)),
            AddressingMode::ZeroPageY(addr) => Some(zero_page_indexed(*addr, s.registers.y.value)),
            AddressingMode::Absolute(addr) => Some(*addr as int),
            AddressingMode::AbsoluteX(addr) => Some(absolute_indexed(*addr, s.registers.x.value)),
            AddressingMode::AbsoluteY(addr) => Some(absolute_indexed(*addr, s.registers.y.value)),
            AddressingMode::Indirect(addr) => Some(indirect_target(s.memory, *addr)),
            AddressingMode::IndexedIndirect(addr) => Some(
                indexed_indirect_address(s.memory, *addr, s.registers.x.value),
            ),
            AddressingMode::IndirectIndexed(addr) => Some(
                indirect_indexed_address(s.memory, *addr, s.registers.y.value),
            ),
        }
    }

    /// Whether an operand can be read through the mode: through every mode
    /// but `Indirect`, which only names a jump target.
    pub open spec fn can_read(&self) -> bool {
        !(self is Indirect)
    }

    /// Whether an operand can be written through the mode: not through
    /// `Immediate`, which is a literal, nor through `Indirect`.
    pub open spec fn can_write(&self) -> bool {
        !(self is Immediate) && !(self is Indirect)
    }

    /// Whether the mode names a jump target.
    pub open spec fn can_jump(&self) -> bool {
        self is Absolute || self is Indirect
    }

    /// The operand in state `s`: the accumulator, the literal, or the byte
    /// at the effective address.
    pub open spec fn operand(&self, s: State) -> u8 {
        match self {
            AddressingMode::Accumulator => s.registers.acc.value,
            AddressingMode::Immediate(value) => *value,
            _ => s.memory[self.effective_address(s).unwrap()],
        }
    }

    /// State `s` after `value` is stored as the operand: in the accumulator,
    /// or in memory at the effective address. Nothing else changes.
    pub open spec fn store(&self, s: State, value: u8) -> State {
        match self {
            AddressingMode::Accumulator => State {
                registers: Registers { acc: Accumulator { value }, ..s.registers },
                ..s
            },
            _ => State { memory: s.memory.update(self.effective_address(s).unwrap(), value), ..s },
        }
    }

    /// The address that a jump through the mode leads to.
    pub open spec fn target(&self, memory: Seq<u8>) -> int {
        match self {
            AddressingMode::Indirect(addr) => indirect_target(memory, *addr),
            AddressingMode::Absolute(addr) => *addr as int,
            _ => 0,
        }
    }

    /// Number of operand bytes that the mode takes in an encoded instruction.
    pub fn length(&self) -> (len: u16)
        ensures
            len == self.operand_len(),
    {
        match self {
            AddressingMode::Accumulator => 0,
            AddressingMode::Immediate(_) => 1,
            AddressingMode::ZeroPage(_) => 1,
            AddressingMode::ZeroPageX(_) => 1,
            AddressingMode::ZeroPageY(_) => 1,
            AddressingMode::Absolute(_) => 2,
            AddressingMode::AbsoluteX(_) => 2,
            AddressingMode::AbsoluteY(_) => 2,
            AddressingMode::Indirect(_) => 2,
            AddressingMode::IndexedIndirect(_) => 1,
            AddressingMode::IndirectIndexed(_) => 1,
        }
    }

    /// Reads the operand.
    pub fn read(&self, memory: &Memory, registers: &Registers) -> (value: u8)
        requires
            self.can_read(),
        ensures
            value == self.operand(State::of(*memory, *registers)),
    {
        match self {
            AddressingMode::Accumulator => registers.acc.value,
            AddressingMode::Immediate(value) => *value,
            AddressingMode::ZeroPage(addr) => memory.zero_page(*addr),
            AddressingMode::ZeroPageX(addr) => memory.zero_page_register(*addr, &registers.x),
            AddressingMode::ZeroPageY(addr) => memory.zero_page_register(*addr, &registers.y),
            AddressingMode::Absolute(addr) => memory.absolute(*addr),
            AddressingMode::AbsoluteX(addr) => memory.absolute_register(*addr, &registers.x),
            AddressingMode::AbsoluteY(addr) => memory.absolute_register(*addr, &registers.y),
            AddressingMode::Indirect(_) => unreached(),
            AddressingMode::IndexedIndirect(addr) => memory.indexed_indirect(*addr, &registers.x),
            AddressingMode::IndirectIndexed(addr) => memory.indirect_indexed(*addr, &registers.y),
        }
    }

    /// Stores `value` as the operand.
    pub fn write(&self, memory: &mut Memory, registers: &mut Registers, value: u8)
        requires
            self.can_write(),
        ensures
            State::of(*final(memory), *final(registers)) == self.store(
                State::of(*old(memory), *old(registers)),
                value,
            ),
    {
        match self {
            AddressingMode::Accumulator => {
                registers.acc.value = value;
            },
            AddressingMode::Immediate(_) => unreached(),
            AddressingMode::ZeroPage(addr) => memory.zero_page_write(*addr, value),
            AddressingMode::ZeroPageX(addr) => memory.zero_page_register_write(
                *addr,
                &registers.x,
                value,
            ),
            AddressingMode::ZeroPageY(addr) => memory.zero_page_register_write(
                *addr,
                &registers.y,
                value,
            ),
            AddressingMode::Absolute(addr) => memory.absolute_write(*addr, value),
            AddressingMode::AbsoluteX(addr) => memory.absolute_register_write(
                *addr,
                &registers.x,
                value,
            ),
            AddressingMode::AbsoluteY(addr) => memory.absolute_register_write(
                *addr,
                &registers.y,
                value,
            ),
            AddressingMode::Indirect(_) => unreached(),
            AddressingMode::IndexedIndirect(addr) => memory.indexed_indirect_write(
                *addr,
                &registers.x,
                value,
            ),
            AddressingMode::IndirectIndexed(addr) => memory.indirect_indexed_write(
                *addr,
                &registers.y,
                value,
            ),
        }
    }

    /// The address that a jump through the mode leads to.
    pub fn dest(&self, memory: &Memory) -> (addr: u16)
        requires
            self.can_jump(),
        ensures
            addr == self.target(memory@),
    {
        match self {
            AddressingMode::Indirect(addr) => memory.indirect(*addr),
            AddressingMode::Absolute(addr) => *addr,
            _ => unreached(),
        }
    }

    /// The operand bytes of the mode, as they follow the opcode.
    pub fn render(&self) -> (bytes: Vec<u8>)
        ensures
            bytes@ == self.operand_bytes(),
    {
        let bytes = match self {
            AddressingMode::Accumulator => Vec::new(),
            AddressingMode::Immediate(value) => vec![*value],
            AddressingMode::ZeroPage(addr) => vec![*addr],
            AddressingMode::ZeroPageX(addr) => vec![*addr],
            AddressingMode::ZeroPageY(addr) => vec![*addr],
            AddressingMode::Absolute(addr) => split_bytes(*addr),
            AddressingMode::AbsoluteX(addr) => split_bytes(*addr),
            AddressingMode::AbsoluteY(addr) => split_bytes(*addr),
            AddressingMode::Indirect(addr) => split_bytes(*addr),
            AddressingMode::IndexedIndirect(addr) => vec![*addr],
            AddressingMode::IndirectIndexed(addr) => vec![*addr],
        };
        assert(bytes@ =~= self.operand_bytes());
        bytes
    }
}

/// The two bytes of a 16-bit value, low byte first.
pub fn split_bytes(value: u16) -> (bytes: Vec<u8>)
    ensures
        bytes@ == seq![(value % 256) as u8, (value / 256) as u8],
{
    let low: u8 = (value % 256) as u8;
    let high: u8 = (value / 256) as u8;
    let bytes = vec![low, high];
    assert(bytes@ =~= seq![(value % 256) as u8, (value / 256) as u8]);
    bytes
}

/// An indexed page-zero mode resolves to an address in page zero, whatever
/// its base and whatever the index register holds.
pub proof fn lemma_zero_page_modes_stay_in_page_zero(mode: AddressingMode, s: State)
    requires
        mode is ZeroPageX || mode is ZeroPageY,
    ensures
        mode.effective_address(s) is Some,
        0x00 <= mode.effective_address(s).unwrap() <= 0xFF,
{
}

/// Every effective address lies in the address space.
pub proof fn lemma_effective_address_in_range(mode: AddressingMode, s: State)
    requires
        s.wf(),
    ensures
        mode.effective_address(s) matches Some(addr) ==> 0 <= addr <= 0xFFFF,
{
}

} // verus!
