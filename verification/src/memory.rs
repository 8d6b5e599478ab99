//! The flat byte store and its accessors, one pair per addressing scheme.
//!
//! The store covers the whole 16-bit address space, so every address that an
//! accessor can compute is in range. Page zero is `0x0000..=0x00FF`; the stack
//! page is `0x0100..=0x01FF`. Wherever an address is formed by adding an
//! index, the sum is reduced explicitly: modulo 256 where the scheme stays in
//! page zero, modulo 65536 otherwise.

use crate::registers::{IndexRegister, IndexX, IndexY};
use vstd::prelude::*;

verus! {

/// The machine's memory: 65536 bytes, addressed `0x0000..=0xFFFF`.
pub struct Memory {
    pub inner: [u8; 65536],
}

impl Clone for Memory {
    fn clone(&self) -> (copy: Self)
        ensures
            copy@ == self@,
    {
        Memory { inner: self.inner }
    }
}

impl View for Memory {
    type V = Seq<u8>;

    open spec fn view(&self) -> Seq<u8> {
        self.inner@
    }
}

/// The 16-bit value whose low byte is `low` and whose high byte is `high`.
pub open spec fn word(low: u8, high: u8) -> u16 {
    (low + 256 * high) as u16
}

/// Effective address of a zero-page access at `base` indexed by `index`:
/// the sum wraps around within page zero.
pub open spec fn zero_page_indexed(base: u8, index: u8) -> int {
    (base + index) % 256
}

/// Effective address of an absolute access at `base` indexed by `index`:
/// the sum wraps around at the end of the address space.
pub open spec fn absolute_indexed(base: u16, index: u8) -> int {
    (base + index) % 65536
}

/// The address stored, low byte first, at `addr` and the address after it.
pub open spec fn indirect_target(memory: Seq<u8>, addr: u16) -> int {
    word(memory[addr as int], memory[(addr + 1) % 65536]) as int
}

/// Effective address of an indexed-indirect access: the pointer stored, low
/// byte first, at page-zero location `base + x` and the location after it,
/// both wrapped within page zero.
pub open spec fn indexed_indirect_address(memory: Seq<u8>, base: u8, x: u8) -> int {
    word(memory[zero_page_indexed(base, x)], memory[(base + x + 1) % 256]) as int
}

/// Effective address of an indirect-indexed access: the pointer stored, low
/// byte first, at page-zero location `base` and the location after it
/// (wrapped within page zero), plus `y`, wrapped at the end of the address
/// space.
pub open spec fn indirect_indexed_address(memory: Seq<u8>, base: u8, y: u8) -> int {
    (word(memory[base as int], memory[(base + 1) % 256]) + y) % 65536
}

/// Joins two bytes, low byte first, into a 16-bit value.
pub fn join_bytes(low: u8, high: u8) -> (value: u16)
    ensures
        value == word(low, high),
{
    let low_part: u16 = u16::from(low);
    let high_part: u16 = u16::from(high);
    high_part * 256 + low_part
}

impl Memory {
    /// A memory with every byte zero.
    pub fn new() -> (memory: Self)
        ensures
            memory@ == Seq::new(65536, |a: int| 0u8),
    {
        let memory = Memory { inner: [0; 65536] };
        assert(memory@ =~= Seq::new(65536, |a: int| 0u8));
        memory
    }

    /// Reads the byte at page-zero address `addr`.
    pub fn zero_page(&self, addr: u8) -> (value: u8)
        ensures
            value == self@[addr as int],
    {
        let checked = usize::from(addr);
        self.inner[checked]
    }

    /// Stores `value` at page-zero address `addr`.
    pub fn zero_page_write(&mut self, addr: u8, value: u8)
        ensures
            final(self)@ == old(self)@.update(addr as int, value),
    {
        let checked = usize::from(addr);
        self.inner[checked] = value;
    }

    /// Reads the byte at page-zero address `addr` indexed by `register`.
    pub fn zero_page_register<T: IndexRegister>(&self, addr: u8, register: &T) -> (value: u8)
        ensures
            value == self@[zero_page_indexed(addr, register.index())],
    {
        let checked = usize::from(addr.wrapping_add(register.read()));
        self.inner[checked]
    }

    /// Stores `value` at page-zero address `addr` indexed by `register`.
    pub fn zero_page_register_write<T: IndexRegister>(
        &mut self,
        addr: u8,
        register: &T,
        value: u8,
    )
        ensures
            final(self)@ == old(self)@.update(zero_page_indexed(addr, register.index()), value),
    {
        let checked = usize::from(addr.wrapping_add(register.read()));
        self.inner[checked] = value;
    }

    /// Reads the byte at `addr`.
    pub fn absolute(&self, addr: u16) -> (value: u8)
        ensures
            value == self@[addr as int],
    {
        let checked = usize::from(addr);
        self.inner[checked]
    }

    /// Stores `value` at `addr`.
    pub fn absolute_write(&mut self, addr: u16, value: u8)
        ensures
            final(self)@ == old(self)@.update(addr as int, value),
    {
        let checked = usize::from(addr);
        self.inner[checked] = value;
    }

    /// Reads the byte at `addr` indexed by `register`.
    pub fn absolute_register<T: IndexRegister>(&self, addr: u16, register: &T) -> (value: u8)
        ensures
            value == self@[absolute_indexed(addr, register.index())],
    {
        let checked = usize::from(addr.wrapping_add(u16::from(register.read())));
        self.inner[checked]
    }

    /// Stores `value` at `addr` indexed by `register`.
    pub fn absolute_register_write<T: IndexRegister>(
        &mut self,
        addr: u16,
        register: &T,
        value: u8,
    )
        ensures
            final(self)@ == old(self)@.update(absolute_indexed(addr, register.index()), value),
    {
        let checked = usize::from(addr.wrapping_add(u16::from(register.read())));
        self.inner[checked] = value;
    }

    /// Reads the jump target stored at `addr`.
    pub fn indirect(&self, addr: u16) -> (target: u16)
        ensures
            target == indirect_target(self@, addr),
    {
        let checked_first = usize::from(addr);
        let first = self.inner[checked_first];

        let checked_second = usize::from(addr.wrapping_add(1));
        let second = self.inner[checked_second];

        join_bytes(first, second)
    }

    /// Reads the byte that the page-zero pointer at `addr + X` points to.
    pub fn indexed_indirect(&self, addr: u8, register: &IndexX) -> (value: u8)
        ensures
            value == self@[indexed_indirect_address(self@, addr, register.value)],
    {
        let location = addr.wrapping_add(register.read());
        let checked = usize::from(location);
        let first = self.inner[checked];

        let checked = usize::from(location.wrapping_add(1));
        let second = self.inner[checked];

        let checked = usize::from(join_bytes(first, second));
        self.inner[checked]
    }

    /// Stores `value` where the page-zero pointer at `addr + X` points to.
    pub fn indexed_indirect_write(&mut self, addr: u8, register: &IndexX, value: u8)
        ensures
            final(self)@ == old(self)@.update(
                indexed_indirect_address(old(self)@, addr, register.value),
                value,
            ),
    {
        let location = addr.wrapping_add(register.read());
        let checked = usize::from(location);
        let first = self.inner[checked];

        let checked = usize::from(location.wrapping_add(1));
        let second = self.inner[checked];

        let checked = usize::from(join_bytes(first, second));
        self.inner[checked] = value;
    }

    /// Reads the byte `Y` places after where the page-zero pointer at `addr`
    /// points to.
    pub fn indirect_indexed(&self, addr: u8, register: &IndexY) -> (value: u8)
        ensures
            value == self@[indirect_indexed_address(self@, addr, register.value)],
    {
        let checked = usize::from(addr);
        let first = self.inner[checked];

        let checked = usize::from(addr.wrapping_add(1));
        let second = self.inner[checked];

        let checked = usize::from(
            join_bytes(first, second).wrapping_add(u16::from(register.read())),
        );
        self.inner[checked]
    }

    /// Stores `value` `Y` places after where the page-zero pointer at `addr`
    /// points to.
    pub fn indirect_indexed_write(&mut self, addr: u8, register: &IndexY, value: u8)
        ensures
            final(self)@ == old(self)@.update(
                indirect_indexed_address(old(self)@, addr, register.value),
                value,
            ),
    {
        let checked = usize::from(addr);
        let first = self.inner[checked];

        let checked = usize::from(addr.wrapping_add(1));
        let second = self.inner[checked];

        let checked = usize::from(
            join_bytes(first, second).wrapping_add(u16::from(register.read())),
        );
        self.inner[checked] = value;
    }
}

/// An indexed page-zero access never leaves page zero, whatever the base and
/// the index.
pub proof fn lemma_zero_page_indexed_in_page_zero(base: u8, index: u8)
    ensures
        0x00 <= zero_page_indexed(base, index) <= 0xFF,
{
}

/// The pointer of an indexed-indirect access is read from page zero; the
/// pointer of an indirect-indexed access too. Each effective address is the
/// little-endian pointer found there, for the second with the index added.
pub proof fn lemma_pointer_modes_resolve(memory: Seq<u8>, base: u8, index: u8)
    requires
        memory.len() == 65536,
    ensures
        indexed_indirect_address(memory, base, index) == memory[(base + index) % 256] + 256
            * memory[(base + index + 1) % 256],
        indirect_indexed_address(memory, base, index) == (memory[base as int] + 256 * memory[(base
            + 1) % 256] + index) % 65536,
        0 <= indexed_indirect_address(memory, base, index) <= 0xFFFF,
        0 <= indirect_indexed_address(memory, base, index) <= 0xFFFF,
{
}

} // verus!
