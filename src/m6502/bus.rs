use vstd::prelude::*;

use super::cpu::{CPU, s32};
use super::memory::{lemma_mem_len, Mem};

verus! {

broadcast use lemma_mem_len;

/// `v` reduced to a 16-bit address: arithmetic on the program counter and on
/// stored addresses wraps past 0xFFFF.
pub open spec fn wrap16(v: int) -> u16 {
    (v % 0x10000) as u16
}

/// The little-endian word whose low byte is at `address` and whose high byte
/// follows it.
pub open spec fn word_at(mem: Seq<u8>, address: u16) -> u16 {
    (mem[address as int] as int + 256 * mem[wrap16(address + 1) as int] as int) as u16
}

/// `mem` with the little-endian word `value` stored at `address`.
pub open spec fn with_word(mem: Seq<u8>, address: u16, value: u16) -> Seq<u8> {
    mem.update(address as int, (value % 256) as u8).update(
        wrap16(address + 1) as int,
        (value / 256) as u8,
    )
}

impl CPU {
    /// This state with the program counter moved on by `k` bytes.
    pub open spec fn advanced(self, k: int) -> CPU {
        CPU { pc: wrap16(self.pc + k), ..self }
    }

    /// Reads the byte at the program counter and steps past it: one cycle.
    pub(crate) fn fetch_byte(&mut self, cycles: &mut s32, memory: &Mem) -> (r: u8)
        requires
            *old(cycles) >= i32::MIN + 1,
        ensures
            r == memory@[old(self).pc as int],
            *final(self) == old(self).advanced(1),
            *final(cycles) == *old(cycles) - 1,
    {
        let data = memory.read(self.pc);
        self.pc = self.pc.wrapping_add(1);
        *cycles = *cycles - 1;
        data
    }

    /// Reads the little-endian word at the program counter and steps past
    /// it: two cycles.
    pub(crate) fn fetch_word(&mut self, cycles: &mut s32, memory: &Mem) -> (r: u16)
        requires
            *old(cycles) >= i32::MIN + 2,
        ensures
            r == word_at(memory@, old(self).pc),
            *final(self) == old(self).advanced(2),
            *final(cycles) == *old(cycles) - 2,
    {
        let pc = self.pc;
        let lo = memory.read(pc) as u16;
        let hi = memory.read(pc.wrapping_add(1)) as u16;
        self.pc = pc.wrapping_add(2);
        *cycles = *cycles - 2;
        lo + hi * 256
    }

    /// Reads the byte at `address` without moving the program counter: one
    /// cycle.
    pub(crate) fn read_byte(&self, cycles: &mut s32, address: u16, memory: &Mem) -> (r: u8)
        requires
            *old(cycles) >= i32::MIN + 1,
        ensures
            r == memory@[address as int],
            *final(cycles) == *old(cycles) - 1,
    {
        *cycles = *cycles - 1;
        memory.read(address)
    }

    /// Reads the little-endian word at `address` without moving the program
    /// counter: two cycles.
    pub(crate) fn read_word(&self, cycles: &mut s32, address: u16, memory: &Mem) -> (r: u16)
        requires
            *old(cycles) >= i32::MIN + 2,
        ensures
            r == word_at(memory@, address),
            *final(cycles) == *old(cycles) - 2,
    {
        let lo = self.read_byte(cycles, address, memory) as u16;
        let hi = self.read_byte(cycles, address.wrapping_add(1), memory) as u16;
        lo + hi * 256
    }

    /// Stores `value` at `address`: one cycle.
    pub(crate) fn write_byte(&self, value: u8, cycles: &mut s32, address: u16, memory: &mut Mem)
        requires
            *old(cycles) >= i32::MIN + 1,
        ensures
            final(memory)@ == old(memory)@.update(address as int, value),
            *final(cycles) == *old(cycles) - 1,
    {
        memory.write(address, value);
        *cycles = *cycles - 1;
    }

    /// Stores the little-endian word `value` at `address` (low byte first,
    /// the high byte at the next address, wrapping past 0xFFFF): two cycles.
    pub fn write_word(&mut self, value: u16, cycles: &mut s32, address: u16, memory: &mut Mem)
        requires
            *old(cycles) >= i32::MIN + 2,
        ensures
            *final(self) == *old(self),
            final(memory)@ == with_word(old(memory)@, address, value),
            *final(cycles) == *old(cycles) - 2,
    {
        memory.write(address, (value % 256) as u8);
        memory.write(address.wrapping_add(1), (value / 256) as u8);
        *cycles = *cycles - 2;
    }
}

} // verus!
