//! The mathematical model of the machine, and the stack discipline.
//!
//! A [`State`] pairs the contents of memory with the register file. Every
//! instruction is specified as a function from the state before it runs to
//! the state after.

use crate::memory::Memory;
use crate::registers::{Registers, StackPointer};
use vstd::prelude::*;

verus! {

/// The machine at one instant: what memory holds, and the registers.
pub struct State {
    pub memory: Seq<u8>,
    pub registers: Registers,
}

/// Address of the stack slot that the stack pointer value `sp` selects: the
/// high byte is fixed at `0x01`, the low byte is `sp`.
pub open spec fn stack_address(sp: u8) -> int {
    0x0100 + sp
}

impl State {
    /// The state made of an executable memory and register file.
    pub open spec fn of(memory: Memory, registers: Registers) -> State {
        State { memory: memory@, registers }
    }

    /// A state is well formed when its memory covers the whole address space.
    pub open spec fn wf(self) -> bool {
        self.memory.len() == 65536
    }

    /// The same state with the program counter set to `pc`, reduced modulo
    /// 65536.
    pub open spec fn jump(self, pc: int) -> State {
        State { registers: self.registers.at(pc), ..self }
    }

    /// The same state with the program counter moved forward by `bytes`,
    /// wrapping at the end of the address space.
    pub open spec fn advance(self, bytes: int) -> State {
        State { registers: self.registers.advanced(bytes), ..self }
    }

    /// The state after `value` is pushed: it is stored in the slot that the
    /// stack pointer selects, and the stack pointer then moves down by one,
    /// from `0x00` around to `0xFF`.
    pub open spec fn push(self, value: u8) -> State {
        State {
            memory: self.memory.update(stack_address(self.registers.sp.value), value),
            registers: Registers {
                sp: StackPointer { value: ((self.registers.sp.value + 255) % 256) as u8 },
                ..self.registers
            },
        }
    }

    /// The byte that the next pull returns: the one in the slot above the
    /// stack pointer, from `0xFF` around to `0x00`.
    pub open spec fn top(self) -> u8 {
        self.memory[stack_address(((self.registers.sp.value + 1) % 256) as u8)]
    }

    /// The state after one byte is pulled: the stack pointer moves up by
    /// one, from `0xFF` around to `0x00`. Memory is unchanged.
    pub open spec fn pull(self) -> State {
        State {
            registers: Registers {
                sp: StackPointer { value: ((self.registers.sp.value + 1) % 256) as u8 },
                ..self.registers
            },
            ..self
        }
    }
}

/// Pushes `value` onto the stack.
pub fn push(memory: &mut Memory, registers: &mut Registers, value: u8)
    ensures
        State::of(*final(memory), *final(registers)) == State::of(
            *old(memory),
            *old(registers),
        ).push(value),
{
    memory.absolute_write(0x0100 + u16::from(registers.sp.value), value);
    registers.sp.value = registers.sp.value.wrapping_sub(1);
}

/// Pulls the top byte off the stack.
pub fn pull(memory: &Memory, registers: &mut Registers) -> (value: u8)
    ensures
        value == State::of(*memory, *old(registers)).top(),
        State::of(*memory, *final(registers)) == State::of(*memory, *old(registers)).pull(),
{
    registers.sp.value = registers.sp.value.wrapping_add(1);
    memory.absolute(0x0100 + u16::from(registers.sp.value))
}

/// A pull undoes a push: it returns the byte pushed and restores the stack
/// pointer, whatever the stack pointer was.
pub proof fn lemma_pull_after_push(s: State, value: u8)
    requires
        s.wf(),
    ensures
        s.push(value).top() == value,
        s.push(value).pull().registers == s.registers,
        s.push(value).wf(),
{
}

} // verus!
