//! Properties of the interpreter as a whole, proved over its model.
use vstd::prelude::*;

use super::addressing::{operand_address, operand_cycles, page_penalty, AddressingMode};
use super::bus::{word_at, with_word, wrap16};
use super::cpu::{negative_flag_of, zero_flag_of, Register, CPU};
use super::dispatch::{
    fault_seq, lemma_step_cycles, run, stack_address, step_transition, Run,
};
use super::instruction::{instruction_of, Instruction};
use super::memory::MAX_MEM;

verus! {

/// Carry, interrupt-disable, decimal, break and overflow agree in `a` and `b`:
/// the flags that no load or store touches.
pub open spec fn same_untouched_flags(a: CPU, b: CPU) -> bool {
    &&& a.c == b.c
    &&& a.i == b.i
    &&& a.d == b.d
    &&& a.b == b.b
    &&& a.v == b.v
}

/// Every status flag agrees in `a` and `b`.
pub open spec fn same_flags(a: CPU, b: CPU) -> bool {
    &&& same_untouched_flags(a, b)
    &&& a.z == b.z
    &&& a.n == b.n
}

/// Whether adding `index` to `base` changes the high byte: a page crossing.
pub open spec fn crosses_page(base: u16, index: u8) -> bool {
    base / 0x100 != wrap16(base + index) / 0x100
}

/// The index register that `mode` adds, for the indexed modes.
pub open spec fn index_register(cpu: CPU, mode: AddressingMode) -> u8 {
    match mode {
        AddressingMode::ZeroPageY | AddressingMode::AbsoluteY | AddressingMode::IndirectY => cpu.y,
        _ => cpu.x,
    }
}

/// A load instruction, whatever its register and addressing mode, leaves in
/// its register the byte at its effective address, sets Zero exactly when
/// that byte is zero and Negative exactly when its bit 7 is set, leaves the
/// other five flags and memory as they were, and leaves the program counter
/// just past its operand.
pub proof fn lemma_load_sets_register_and_flags(cpu: CPU, mem: Seq<u8>)
    requires
        mem.len() == MAX_MEM,
        instruction_of(mem[cpu.pc as int]) is Load,
    ensures
        ({
            let r = instruction_of(mem[cpu.pc as int])->Load_0;
            let mode = instruction_of(mem[cpu.pc as int])->Load_1;
            let value = mem[operand_address(cpu.advanced(1), mem, mode) as int];
            let after = step_transition(cpu, mem);
            &&& after.cpu.register(r) == value
            &&& after.cpu.z == zero_flag_of(value)
            &&& after.cpu.n == negative_flag_of(value)
            &&& same_untouched_flags(after.cpu, cpu)
            &&& after.mem == mem
            &&& after.fault is None
        }),
{
}

/// A non-positive budget runs nothing: no cycle is used and neither registers
/// nor memory change.
pub proof fn lemma_no_budget_runs_nothing(cpu: CPU, mem: Seq<u8>, budget: int)
    requires
        budget <= 0,
    ensures
        run(cpu, mem, budget) == (Run { cpu, mem, remaining: budget, faults: seq![] }),
{
}

/// A positive budget is never under-spent, and overrun by at most five
/// cycles: the last instruction started always completes.
pub proof fn lemma_budget_overrun_bounded(cpu: CPU, mem: Seq<u8>, budget: int)
    requires
        budget > 0,
    ensures
        budget <= budget - run(cpu, mem, budget).remaining <= budget + 5,
    decreases budget,
{
    let t = step_transition(cpu, mem);
    lemma_step_cycles(cpu, mem);
    assert(run(cpu, mem, budget).remaining == run(t.cpu, t.mem, budget - t.cycles).remaining);
    if budget - t.cycles > 0 {
        lemma_budget_overrun_bounded(t.cpu, t.mem, budget - t.cycles);
    }
}

/// A budget smaller than the first instruction's cost still runs that whole
/// instruction and nothing more: the cycles used are its true cost.
pub proof fn lemma_started_instruction_completes(cpu: CPU, mem: Seq<u8>, budget: int)
    requires
        0 < budget <= step_transition(cpu, mem).cycles,
    ensures
        ({
            let t = step_transition(cpu, mem);
            let outcome = run(cpu, mem, budget);
            &&& outcome.cpu == t.cpu
            &&& outcome.mem == t.mem
            &&& budget - outcome.remaining == t.cycles
            &&& outcome.faults == fault_seq(t.fault)
        }),
{
    let t = step_transition(cpu, mem);
    let rest = run(t.cpu, t.mem, budget - t.cycles);
    assert(rest == (Run { cpu: t.cpu, mem: t.mem, remaining: budget - t.cycles, faults: seq![] }));
    assert(run(cpu, mem, budget) == (Run { faults: fault_seq(t.fault) + rest.faults, ..rest }));
    assert(fault_seq(t.fault) + seq![] =~= fault_seq(t.fault));
}

/// Zero-page indexed addressing stays in the zero page: the operand byte plus
/// the index register, wrapped past 0xFF.
pub proof fn lemma_zero_page_indexed_wraps(cpu: CPU, mem: Seq<u8>, mode: AddressingMode)
    requires
        mem.len() == MAX_MEM,
        mode == AddressingMode::ZeroPageX || mode == AddressingMode::ZeroPageY,
    ensures
        ({
            let sum = mem[cpu.pc as int] + index_register(cpu, mode);
            let address = operand_address(cpu, mem, mode);
            &&& address < 0x100
            &&& sum < 0x100 ==> address == sum
            &&& sum >= 0x100 ==> address == sum - 0x100
        }),
{
}

/// Of two runs of one indexed absolute instruction, the one whose index
/// addition crosses a page costs exactly one cycle more than the one whose
/// addition does not.
///
/// The extra cycle comes from the test `indexed - base >= 0xFF`, which holds
/// for an index of 0xFF only; so the crossing run has that index, and the
/// other a smaller one.
pub proof fn lemma_page_crossing_costs_one_cycle(
    crossing: CPU,
    crossing_mem: Seq<u8>,
    plain: CPU,
    plain_mem: Seq<u8>,
)
    requires
        crossing_mem.len() == MAX_MEM,
        plain_mem.len() == MAX_MEM,
        crossing_mem[crossing.pc as int] == plain_mem[plain.pc as int],
        ({
            let ins = instruction_of(crossing_mem[crossing.pc as int]);
            let mode = if ins is Load {
                ins->Load_1
            } else {
                ins->Store_1
            };
            let crossing_base = word_at(crossing_mem, crossing.advanced(1).pc);
            let plain_base = word_at(plain_mem, plain.advanced(1).pc);
            &&& ins is Load || ins is Store
            &&& mode == AddressingMode::AbsoluteX || mode == AddressingMode::AbsoluteY
            &&& crosses_page(crossing_base, index_register(crossing, mode))
            &&& index_register(crossing, mode) == 0xFF
            &&& !crosses_page(plain_base, index_register(plain, mode))
            &&& index_register(plain, mode) < 0xFF
        }),
    ensures
        step_transition(crossing, crossing_mem).cycles == step_transition(plain, plain_mem).cycles
            + 1,
{
    let ins = instruction_of(crossing_mem[crossing.pc as int]);
    let mode = if ins is Load {
        ins->Load_1
    } else {
        ins->Store_1
    };
    let c = crossing.advanced(1);
    let p = plain.advanced(1);
    lemma_index_penalty(word_at(crossing_mem, c.pc), index_register(crossing, mode));
    lemma_index_penalty(word_at(plain_mem, p.pc), index_register(plain, mode));
    assert(operand_cycles(c, crossing_mem, mode) == 3);
    assert(operand_cycles(p, plain_mem, mode) == 2);
}

/// The page-crossing cycle is charged exactly for an index of 0xFF.
proof fn lemma_index_penalty(base: u16, index: u8)
    ensures
        page_penalty(base, wrap16(base + index)) == if index == 0xFF {
            1int
        } else {
            0
        },
{
}

/// A subroutine call takes six cycles, continues at its target word, and
/// leaves at the stack cell of the stack pointer before the call the word
/// (program counter after the target fetch, minus one); the stack pointer and
/// all other registers and flags stay as they were.
pub proof fn lemma_jump_to_subroutine(cpu: CPU, mem: Seq<u8>)
    requires
        mem.len() == MAX_MEM,
        instruction_of(mem[cpu.pc as int]) == Instruction::JumpToSubroutine,
    ensures
        ({
            let after = step_transition(cpu, mem);
            &&& after.cycles == 6
            &&& after.cpu == (CPU { pc: word_at(mem, wrap16(cpu.pc + 1)), ..cpu })
            &&& word_at(after.mem, stack_address(cpu.sp)) == wrap16(cpu.advanced(3).pc - 1)
        }),
{
    let after = step_transition(cpu, mem);
    let slot = stack_address(cpu.sp);
    let value = wrap16(cpu.advanced(3).pc - 1);
    assert(after.mem == with_word(mem, slot, value));
    assert(wrap16(slot + 1) != slot);
}

/// Storing a register and then loading the same address into the same
/// register gives back its value; the store changes no flag, and the load only
/// Zero and Negative, which then describe that value.
pub proof fn lemma_store_then_load_round_trip(cpu: CPU, mem: Seq<u8>, r: Register)
    requires
        mem.len() == MAX_MEM,
        ({
            let store = instruction_of(mem[cpu.pc as int]);
            let stored = step_transition(cpu, mem);
            let load = instruction_of(stored.mem[stored.cpu.pc as int]);
            &&& store is Store && store->Store_0 == r
            &&& load is Load && load->Load_0 == r
            &&& operand_address(stored.cpu.advanced(1), stored.mem, load->Load_1)
                == operand_address(cpu.advanced(1), mem, store->Store_1)
        }),
    ensures
        ({
            let stored = step_transition(cpu, mem);
            let loaded = step_transition(stored.cpu, stored.mem);
            let value = cpu.register(r);
            &&& same_flags(stored.cpu, cpu)
            &&& loaded.cpu.register(r) == value
            &&& same_untouched_flags(loaded.cpu, cpu)
            &&& loaded.cpu.z == zero_flag_of(value)
            &&& loaded.cpu.n == negative_flag_of(value)
        }),
{
    let stored = step_transition(cpu, mem);
    assert(stored.mem.len() == MAX_MEM);
}

} // verus!
