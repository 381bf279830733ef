use vstd::prelude::*;

use super::bus::{word_at, wrap16};
use super::cpu::{CPU, s32};
use super::memory::{lemma_mem_len, Mem};

verus! {

broadcast use lemma_mem_len;

/// The rule by which an instruction's operand bytes give an effective address.
#[derive(Clone, Copy, Debug, PartialEq, Eq)]
pub enum AddressingMode {
    /// The operand byte itself is the value.
    Immediate,
    /// One operand byte, zero-extended.
    ZeroPage,
    /// One operand byte plus X, kept within the zero page.
    ZeroPageX,
    /// One operand byte plus Y, kept within the zero page.
    ZeroPageY,
    /// A little-endian operand word.
    Absolute,
    /// A little-endian operand word plus X.
    AbsoluteX,
    /// A little-endian operand word plus Y.
    AbsoluteY,
    /// The word stored at (operand byte plus X).
    IndirectX,
    /// The word stored at the operand byte, plus Y.
    IndirectY,
}

/// The number of operand bytes that follow the opcode in `mode`.
pub open spec fn operand_length(mode: AddressingMode) -> int {
    match mode {
        AddressingMode::Absolute | AddressingMode::AbsoluteX | AddressingMode::AbsoluteY => 2,
        _ => 1,
    }
}

/// The cycle charged when indexing `base` gave `indexed`: one exactly when the
/// unsigned 16-bit difference `indexed - base` is at least 0xFF.
pub open spec fn page_penalty(base: u16, indexed: u16) -> int {
    if wrap16(indexed - base) >= 0xFF {
        1
    } else {
        0
    }
}

/// The effective address in `mode` when the operand starts at `cpu.pc`.
///
/// For `Immediate` this is the operand's own location, whose byte is the value.
pub open spec fn operand_address(cpu: CPU, mem: Seq<u8>, mode: AddressingMode) -> u16 {
    let operand = mem[cpu.pc as int];
    match mode {
        AddressingMode::Immediate => cpu.pc,
        AddressingMode::ZeroPage => operand as u16,
        AddressingMode::ZeroPageX => ((operand + cpu.x) % 0x100) as u16,
        AddressingMode::ZeroPageY => ((operand + cpu.y) % 0x100) as u16,
        AddressingMode::Absolute => word_at(mem, cpu.pc),
        AddressingMode::AbsoluteX => wrap16(word_at(mem, cpu.pc) + cpu.x),
        AddressingMode::AbsoluteY => wrap16(word_at(mem, cpu.pc) + cpu.y),
        AddressingMode::IndirectX => word_at(mem, (operand + cpu.x) as u16),
        AddressingMode::IndirectY => wrap16(word_at(mem, operand as u16) + cpu.y),
    }
}

/// The cycles spent resolving the address in `mode`, from the operand fetch to
/// the final address, not counting the access at that address.
///
/// `Immediate` spends none: its one access is the operand fetch.
pub open spec fn operand_cycles(cpu: CPU, mem: Seq<u8>, mode: AddressingMode) -> int {
    let operand = mem[cpu.pc as int];
    match mode {
        AddressingMode::Immediate => 0,
        AddressingMode::ZeroPage => 1,
        AddressingMode::ZeroPageX | AddressingMode::ZeroPageY => 2,
        AddressingMode::Absolute => 2,
        AddressingMode::AbsoluteX | AddressingMode::AbsoluteY => 2 + page_penalty(
            word_at(mem, cpu.pc),
            operand_address(cpu, mem, mode),
        ),
        AddressingMode::IndirectX => 4,
        AddressingMode::IndirectY => 3 + page_penalty(
            word_at(mem, operand as u16),
            operand_address(cpu, mem, mode),
        ),
    }
}

impl CPU {
    /// Zero page: the operand byte, zero-extended.
    fn addr_zero_page(&mut self, cycles: &mut s32, memory: &Mem) -> (r: u16)
        requires
            *old(cycles) >= i32::MIN + 1,
        ensures
            r == operand_address(*old(self), memory@, AddressingMode::ZeroPage),
            *final(self) == old(self).advanced(1),
            *final(cycles) == *old(cycles) - 1,
    {
        self.fetch_byte(cycles, memory) as u16
    }

    /// Zero page plus X, masked back into the zero page; the index addition
    /// always costs a cycle.
    fn addr_zero_page_x(&mut self, cycles: &mut s32, memory: &Mem) -> (r: u16)
        requires
            *old(cycles) >= i32::MIN + 2,
        ensures
            r == operand_address(*old(self), memory@, AddressingMode::ZeroPageX),
            *final(self) == old(self).advanced(1),
            *final(cycles) == *old(cycles) - 2,
    {
        let zero_page_address = self.fetch_byte(cycles, memory) as u16;
        let address = (zero_page_address + self.x as u16) % 0x100;
        *cycles = *cycles - 1;
        address
    }

    /// Zero page plus Y, masked back into the zero page; the index addition
    /// always costs a cycle.
    fn addr_zero_page_y(&mut self, cycles: &mut s32, memory: &Mem) -> (r: u16)
        requires
            *old(cycles) >= i32::MIN + 2,
        ensures
            r == operand_address(*old(self), memory@, AddressingMode::ZeroPageY),
            *final(self) == old(self).advanced(1),
            *final(cycles) == *old(cycles) - 2,
    {
        let zero_page_address = self.fetch_byte(cycles, memory) as u16;
        let address = (zero_page_address + self.y as u16) % 0x100;
        *cycles = *cycles - 1;
        address
    }

    /// Absolute: the little-endian operand word.
    fn addr_absolute(&mut self, cycles: &mut s32, memory: &Mem) -> (r: u16)
        requires
            *old(cycles) >= i32::MIN + 2,
        ensures
            r == operand_address(*old(self), memory@, AddressingMode::Absolute),
            *final(self) == old(self).advanced(2),
            *final(cycles) == *old(cycles) - 2,
    {
        self.fetch_word(cycles, memory)
    }

    /// The indexed address `base + index`, charging the page-crossing cycle.
    fn index_with_penalty(base: u16, index: u8, cycles: &mut s32) -> (r: u16)
        requires
            *old(cycles) >= i32::MIN + 1,
        ensures
            r == wrap16(base + index),
            *final(cycles) == *old(cycles) - page_penalty(base, r),
    {
        let indexed = base.wrapping_add(index as u16);
        if indexed.wrapping_sub(base) >= 0xFF {
            *cycles = *cycles - 1;
        }
        indexed
    }

    /// Absolute plus X, with no masking; a cycle more when the addition is
    /// taken to cross a page.
    fn addr_absolute_x(&mut self, cycles: &mut s32, memory: &Mem) -> (r: u16)
        requires
            *old(cycles) >= i32::MIN + 3,
        ensures
            r == operand_address(*old(self), memory@, AddressingMode::AbsoluteX),
            *final(self) == old(self).advanced(2),
            *final(cycles) == *old(cycles) - operand_cycles(
                *old(self),
                memory@,
                AddressingMode::AbsoluteX,
            ),
    {
        let base = self.fetch_word(cycles, memory);
        Self::index_with_penalty(base, self.x, cycles)
    }

    /// Absolute plus Y, with no masking; a cycle more when the addition is
    /// taken to cross a page.
    fn addr_absolute_y(&mut self, cycles: &mut s32, memory: &Mem) -> (r: u16)
        requires
            *old(cycles) >= i32::MIN + 3,
        ensures
            r == operand_address(*old(self), memory@, AddressingMode::AbsoluteY),
            *final(self) == old(self).advanced(2),
            *final(cycles) == *old(cycles) - operand_cycles(
                *old(self),
                memory@,
                AddressingMode::AbsoluteY,
            ),
    {
        let base = self.fetch_word(cycles, memory);
        Self::index_with_penalty(base, self.y, cycles)
    }

    /// Indexed indirect: the word stored at (operand byte plus X). The index
    /// addition costs a cycle and the pointer read two more.
    fn addr_indirect_x(&mut self, cycles: &mut s32, memory: &Mem) -> (r: u16)
        requires
            *old(cycles) >= i32::MIN + 4,
        ensures
            r == operand_address(*old(self), memory@, AddressingMode::IndirectX),
            *final(self) == old(self).advanced(1),
            *final(cycles) == *old(cycles) - 4,
    {
        let zero_page_address = self.fetch_byte(cycles, memory) as u16;
        let pointer_address = zero_page_address + self.x as u16;
        *cycles = *cycles - 1;
        self.read_word(cycles, pointer_address, memory)
    }

    /// Indirect indexed: the word stored at the operand byte, plus Y, with no
    /// masking; a cycle more when the addition is taken to cross a page.
    fn addr_indirect_y(&mut self, cycles: &mut s32, memory: &Mem) -> (r: u16)
        requires
            *old(cycles) >= i32::MIN + 4,
        ensures
            r == operand_address(*old(self), memory@, AddressingMode::IndirectY),
            *final(self) == old(self).advanced(1),
            *final(cycles) == *old(cycles) - operand_cycles(
                *old(self),
                memory@,
                AddressingMode::IndirectY,
            ),
    {
        let zero_page_address = self.fetch_byte(cycles, memory) as u16;
        let pointer = self.read_word(cycles, zero_page_address, memory);
        Self::index_with_penalty(pointer, self.y, cycles)
    }

    /// Resolves the effective address of the operand at the program counter in
    /// `mode`, stepping the program counter past the operand bytes and charging
    /// the cycles that the resolution takes.
    pub fn resolve(&mut self, mode: AddressingMode, cycles: &mut s32, memory: &Mem) -> (r: u16)
        requires
            *old(cycles) >= i32::MIN + 4,
        ensures
            r == operand_address(*old(self), memory@, mode),
            *final(self) == old(self).advanced(operand_length(mode)),
            *final(cycles) == *old(cycles) - operand_cycles(*old(self), memory@, mode),
    {
        match mode {
            AddressingMode::Immediate => {
                let address = self.pc;
                self.pc = self.pc.wrapping_add(1);
                address
            },
            AddressingMode::ZeroPage => self.addr_zero_page(cycles, memory),
            AddressingMode::ZeroPageX => self.addr_zero_page_x(cycles, memory),
            AddressingMode::ZeroPageY => self.addr_zero_page_y(cycles, memory),
            AddressingMode::Absolute => self.addr_absolute(cycles, memory),
            AddressingMode::AbsoluteX => self.addr_absolute_x(cycles, memory),
            AddressingMode::AbsoluteY => self.addr_absolute_y(cycles, memory),
            AddressingMode::IndirectX => self.addr_indirect_x(cycles, memory),
            AddressingMode::IndirectY => self.addr_indirect_y(cycles, memory),
        }
    }
}

} // verus!
