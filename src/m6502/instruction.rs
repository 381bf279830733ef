use vstd::prelude::*;

use super::addressing::AddressingMode;
use super::cpu::{Register, CPU};

verus! {

/// What an opcode byte stands for: an operation and, where it has operands,
/// its addressing mode.
#[derive(Clone, Copy, Debug, PartialEq, Eq)]
pub enum Instruction {
    /// Load a register from memory and set Zero and Negative from the value.
    Load(Register, AddressingMode),
    /// Store a register to memory; no flag changes.
    Store(Register, AddressingMode),
    /// Push the return address minus one and jump to the operand word.
    JumpToSubroutine,
    /// No operation of this core has this opcode.
    Unhandled,
}

/// Opcode bytes, named by mnemonic and addressing mode: IM immediate, ZP zero
/// page, ZPX / ZPY zero page indexed, ABS absolute, ABSX / ABSY absolute
/// indexed, INDX indexed indirect, INDY indirect indexed.
impl CPU {
    pub const INS_LDA_IM: u8 = 0xA9;
    pub const INS_LDA_ZP: u8 = 0xA5;
    pub const INS_LDA_ZPX: u8 = 0xB5;
    pub const INS_LDA_ABS: u8 = 0xAD;
    pub const INS_LDA_ABSX: u8 = 0xBD;
    pub const INS_LDA_ABSY: u8 = 0xB9;
    pub const INS_LDA_INDX: u8 = 0xA1;
    pub const INS_LDA_INDY: u8 = 0xB1;

    pub const INS_LDX_IM: u8 = 0xA2;
    pub const INS_LDX_ZP: u8 = 0xA6;
    pub const INS_LDX_ZPY: u8 = 0xB6;
    pub const INS_LDX_ABS: u8 = 0xAE;
    pub const INS_LDX_ABSY: u8 = 0xBE;

    pub const INS_LDY_IM: u8 = 0xA0;
    pub const INS_LDY_ZP: u8 = 0xA4;
    pub const INS_LDY_ZPX: u8 = 0xB4;
    pub const INS_LDY_ABS: u8 = 0xAC;
    pub const INS_LDY_ABSX: u8 = 0xBC;

    pub const INS_JSR: u8 = 0x20;

    pub const INS_STA_ZP: u8 = 0x85;
    pub const INS_STA_ZPX: u8 = 0x95;
    pub const INS_STA_ABS: u8 = 0x8D;
    pub const INS_STA_ABSX: u8 = 0x9D;
    pub const INS_STA_ABSY: u8 = 0x99;
    pub const INS_STA_INDX: u8 = 0x81;
    pub const INS_STA_INDY: u8 = 0x91;

    pub const INS_STX_ZP: u8 = 0x86;
    pub const INS_STX_ABS: u8 = 0x8E;

    pub const INS_STY_ZP: u8 = 0x84;
    pub const INS_STY_ZPX: u8 = 0x94;
    pub const INS_STY_ABS: u8 = 0x8C;
}

/// The opcode table: every byte maps to exactly one instruction.
pub open spec fn instruction_of(opcode: u8) -> Instruction {
    match opcode {
        0xA9 => Instruction::Load(Register::A, AddressingMode::Immediate),
        0xA5 => Instruction::Load(Register::A, AddressingMode::ZeroPage),
        0xB5 => Instruction::Load(Register::A, AddressingMode::ZeroPageX),
        0xAD => Instruction::Load(Register::A, AddressingMode::Absolute),
        0xBD => Instruction::Load(Register::A, AddressingMode::AbsoluteX),
        0xB9 => Instruction::Load(Register::A, AddressingMode::AbsoluteY),
        0xA1 => Instruction::Load(Register::A, AddressingMode::IndirectX),
        0xB1 => Instruction::Load(Register::A, AddressingMode::IndirectY),
        0xA2 => Instruction::Load(Register::X, AddressingMode::Immediate),
        0xA6 => Instruction::Load(Register::X, AddressingMode::ZeroPage),
        0xB6 => Instruction::Load(Register::X, AddressingMode::ZeroPageY),
        0xAE => Instruction::Load(Register::X, AddressingMode::Absolute),
        0xBE => Instruction::Load(Register::X, AddressingMode::AbsoluteY),
        0xA0 => Instruction::Load(Register::Y, AddressingMode::Immediate),
        0xA4 => Instruction::Load(Register::Y, AddressingMode::ZeroPage),
        0xB4 => Instruction::Load(Register::Y, AddressingMode::ZeroPageX),
        0xAC => Instruction::Load(Register::Y, AddressingMode::Absolute),
        0xBC => Instruction::Load(Register::Y, AddressingMode::AbsoluteX),
        0x20 => Instruction::JumpToSubroutine,
        0x85 => Instruction::Store(Register::A, AddressingMode::ZeroPage),
        0x95 => Instruction::Store(Register::A, AddressingMode::ZeroPageX),
        0x8D => Instruction::Store(Register::A, AddressingMode::Absolute),
        0x9D => Instruction::Store(Register::A, AddressingMode::AbsoluteX),
        0x99 => Instruction::Store(Register::A, AddressingMode::AbsoluteY),
        0x81 => Instruction::Store(Register::A, AddressingMode::IndirectX),
        0x91 => Instruction::Store(Register::A, AddressingMode::IndirectY),
        0x86 => Instruction::Store(Register::X, AddressingMode::ZeroPage),
        0x8E => Instruction::Store(Register::X, AddressingMode::Absolute),
        0x84 => Instruction::Store(Register::Y, AddressingMode::ZeroPage),
        0x94 => Instruction::Store(Register::Y, AddressingMode::ZeroPageX),
        0x8C => Instruction::Store(Register::Y, AddressingMode::Absolute),
        _ => Instruction::Unhandled,
    }
}

/// Looks `opcode` up in the opcode table.
pub fn decode(opcode: u8) -> (r: Instruction)
    ensures
        r == instruction_of(opcode),
{
    match opcode {
        0xA9 => Instruction::Load(Register::A, AddressingMode::Immediate),
        0xA5 => Instruction::Load(Register::A, AddressingMode::ZeroPage),
        0xB5 => Instruction::Load(Register::A, AddressingMode::ZeroPageX),
        0xAD => Instruction::Load(Register::A, AddressingMode::Absolute),
        0xBD => Instruction::Load(Register::A, AddressingMode::AbsoluteX),
        0xB9 => Instruction::Load(Register::A, AddressingMode::AbsoluteY),
        0xA1 => Instruction::Load(Register::A, AddressingMode::IndirectX),
        0xB1 => Instruction::Load(Register::A, AddressingMode::IndirectY),
        0xA2 => Instruction::Load(Register::X, AddressingMode::Immediate),
        0xA6 => Instruction::Load(Register::X, AddressingMode::ZeroPage),
        0xB6 => Instruction::Load(Register::X, AddressingMode::ZeroPageY),
        0xAE => Instruction::Load(Register::X, AddressingMode::Absolute),
        0xBE => Instruction::Load(Register::X, AddressingMode::AbsoluteY),
        0xA0 => Instruction::Load(Register::Y, AddressingMode::Immediate),
        0xA4 => Instruction::Load(Register::Y, AddressingMode::ZeroPage),
        0xB4 => Instruction::Load(Register::Y, AddressingMode::ZeroPageX),
        0xAC => Instruction::Load(Register::Y, AddressingMode::Absolute),
        0xBC => Instruction::Load(Register::Y, AddressingMode::AbsoluteX),
        0x20 => Instruction::JumpToSubroutine,
        0x85 => Instruction::Store(Register::A, AddressingMode::ZeroPage),
        0x95 => Instruction::Store(Register::A, AddressingMode::ZeroPageX),
        0x8D => Instruction::Store(Register::A, AddressingMode::Absolute),
        0x9D => Instruction::Store(Register::A, AddressingMode::AbsoluteX),
        0x99 => Instruction::Store(Register::A, AddressingMode::AbsoluteY),
        0x81 => Instruction::Store(Register::A, AddressingMode::IndirectX),
        0x91 => Instruction::Store(Register::A, AddressingMode::IndirectY),
        0x86 => Instruction::Store(Register::X, AddressingMode::ZeroPage),
        0x8E => Instruction::Store(Register::X, AddressingMode::Absolute),
        0x84 => Instruction::Store(Register::Y, AddressingMode::ZeroPage),
        0x94 => Instruction::Store(Register::Y, AddressingMode::ZeroPageX),
        0x8C => Instruction::Store(Register::Y, AddressingMode::Absolute),
        _ => Instruction::Unhandled,
    }
}

} // verus!
