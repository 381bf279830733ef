//! The processor core: memory, registers and flags, and the interpreter.
mod addressing;
mod bus;
mod cpu;
mod dispatch;
mod instruction;
pub mod laws;
mod memory;

pub use addressing::{
    operand_address, operand_cycles, operand_length, page_penalty, AddressingMode,
};
pub use bus::{with_word, word_at, wrap16};
pub use cpu::{
    bit_of, negative_flag_of, zero_flag_of, Byte, Register, Word, CPU, RESET_VECTOR, STACK_PAGE,
    s32,
};
pub use dispatch::{
    fault_seq, jump_to_subroutine_transition, lemma_step_cycles, load_transition, run,
    stack_address, step_transition, store_fixup_cycles, store_transition, InvalidOpcode, Run,
    Transition,
};
pub use instruction::{decode, instruction_of, Instruction};
pub use memory::{lemma_mem_len, zeroed, Mem, MAX_MEM};
