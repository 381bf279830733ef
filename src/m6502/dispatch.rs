use vstd::prelude::*;

use super::addressing::{operand_address, operand_cycles, operand_length, AddressingMode};
use super::bus::{word_at, with_word, wrap16};
use super::cpu::{Register, CPU, STACK_PAGE, s32};
use super::instruction::{decode, instruction_of, Instruction};
use super::memory::{lemma_mem_len, Mem};

verus! {

broadcast use lemma_mem_len;

/// An opcode byte that the table does not map to an operation, and the
/// address it was fetched from.
#[derive(Clone, Copy, Debug, PartialEq, Eq)]
pub struct InvalidOpcode {
    pub opcode: u8,
    pub address: u16,
}

/// The effect of one instruction: the registers and memory after it, the
/// cycles it took, and the opcode it could not execute, if any.
pub struct Transition {
    pub cpu: CPU,
    pub mem: Seq<u8>,
    pub cycles: int,
    pub fault: Option<InvalidOpcode>,
}

/// The stack cell that the stack pointer `sp` addresses: page one, selected by
/// the low byte.
pub open spec fn stack_address(sp: u16) -> u16 {
    (STACK_PAGE + sp % 0x100) as u16
}

/// The fix-up cycle that an indexed absolute store always spends after its
/// write.
pub open spec fn store_fixup_cycles(mode: AddressingMode) -> int {
    match mode {
        AddressingMode::AbsoluteX | AddressingMode::AbsoluteY => 1,
        _ => 0,
    }
}

/// A load of register `r` in `mode`, its operand at `cpu.pc`.
pub open spec fn load_transition(
    cpu: CPU,
    mem: Seq<u8>,
    r: Register,
    mode: AddressingMode,
) -> Transition {
    let value = mem[operand_address(cpu, mem, mode) as int];
    Transition {
        cpu: cpu.advanced(operand_length(mode)).with_register(r, value).with_load_status(value),
        mem,
        cycles: operand_cycles(cpu, mem, mode) + 1,
        fault: None,
    }
}

/// A store of register `r` in `mode`, its operand at `cpu.pc`.
pub open spec fn store_transition(
    cpu: CPU,
    mem: Seq<u8>,
    r: Register,
    mode: AddressingMode,
) -> Transition {
    Transition {
        cpu: cpu.advanced(operand_length(mode)),
        mem: mem.update(operand_address(cpu, mem, mode) as int, cpu.register(r)),
        cycles: operand_cycles(cpu, mem, mode) + 1 + store_fixup_cycles(mode),
        fault: None,
    }
}

/// A subroutine call, its target word at `cpu.pc`: the address of the call's
/// last byte goes to the stack cell, and execution goes on at the target.
pub open spec fn jump_to_subroutine_transition(cpu: CPU, mem: Seq<u8>) -> Transition {
    let return_address = wrap16(cpu.pc + 1);
    Transition {
        cpu: CPU { pc: word_at(mem, cpu.pc), ..cpu },
        mem: with_word(mem, stack_address(cpu.sp), return_address),
        cycles: 5,
        fault: None,
    }
}

/// One instruction, fetched at the program counter: one cycle for the opcode,
/// then the operation.
pub open spec fn step_transition(cpu: CPU, mem: Seq<u8>) -> Transition {
    let opcode = mem[cpu.pc as int];
    let after_opcode = cpu.advanced(1);
    let t = match instruction_of(opcode) {
        Instruction::Load(r, mode) => load_transition(after_opcode, mem, r, mode),
        Instruction::Store(r, mode) => store_transition(after_opcode, mem, r, mode),
        Instruction::JumpToSubroutine => jump_to_subroutine_transition(after_opcode, mem),
        Instruction::Unhandled => Transition {
            cpu: after_opcode,
            mem,
            cycles: 0,
            fault: Some(InvalidOpcode { opcode, address: cpu.pc }),
        },
    };
    Transition { cycles: t.cycles + 1, ..t }
}

/// The outcome of running with a cycle budget: the state when the loop stops,
/// the budget left over (zero or below), and the unhandled opcodes met on the
/// way, in order.
pub struct Run {
    pub cpu: CPU,
    pub mem: Seq<u8>,
    pub remaining: int,
    pub faults: Seq<InvalidOpcode>,
}

/// The unhandled opcode of one instruction, as a sequence of zero or one.
pub open spec fn fault_seq(fault: Option<InvalidOpcode>) -> Seq<InvalidOpcode> {
    match fault {
        Some(f) => seq![f],
        None => seq![],
    }
}

/// Every instruction takes at least one cycle and at most six.
pub proof fn lemma_step_cycles(cpu: CPU, mem: Seq<u8>)
    ensures
        1 <= step_transition(cpu, mem).cycles <= 6,
{
}

/// Whole instructions, one after another, while budget is left; the last may
/// overrun it.
pub open spec fn run(cpu: CPU, mem: Seq<u8>, budget: int) -> Run
    decreases
            if budget > 0 {
                budget
            } else {
                0
            },
    via lemma_run_decreases
{
    if budget <= 0 {
        Run { cpu, mem, remaining: budget, faults: seq![] }
    } else {
        let t = step_transition(cpu, mem);
        let rest = run(t.cpu, t.mem, budget - t.cycles);
        Run { faults: fault_seq(t.fault) + rest.faults, ..rest }
    }
}

#[via_fn]
proof fn lemma_run_decreases(cpu: CPU, mem: Seq<u8>, budget: int) {
    lemma_step_cycles(cpu, mem);
}

impl CPU {
    /// Loads register `r` from the operand at the program counter in `mode`,
    /// then sets Zero and Negative from the value.
    fn load_register(&mut self, r: Register, mode: AddressingMode, cycles: &mut s32, memory: &Mem)
        requires
            *old(cycles) >= i32::MIN + 5,
        ensures
            *final(self) == load_transition(*old(self), memory@, r, mode).cpu,
            *final(cycles) == *old(cycles) - load_transition(*old(self), memory@, r, mode).cycles,
    {
        let address = self.resolve(mode, cycles, memory);
        let value = self.read_byte(cycles, address, memory);
        self.set_register(r, value);
        self.load_register_set_status(value);
    }

    /// Stores register `r` at the operand address in `mode`; an indexed
    /// absolute store spends one fix-up cycle after the write.
    fn store_register(
        &mut self,
        r: Register,
        mode: AddressingMode,
        cycles: &mut s32,
        memory: &mut Mem,
    )
        requires
            *old(cycles) >= i32::MIN + 6,
        ensures
            *final(self) == store_transition(*old(self), old(memory)@, r, mode).cpu,
            final(memory)@ == store_transition(*old(self), old(memory)@, r, mode).mem,
            *final(cycles) == *old(cycles) - store_transition(
                *old(self),
                old(memory)@,
                r,
                mode,
            ).cycles,
    {
        let address = self.resolve(mode, cycles, memory);
        let value = self.get_register(r);
        self.write_byte(value, cycles, address, memory);
        match mode {
            AddressingMode::AbsoluteX | AddressingMode::AbsoluteY => {
                *cycles = *cycles - 1;
            },
            _ => {},
        }
    }

    /// Fetches the target word, pushes the return address minus one at the
    /// stack cell, jumps to the target, and spends one more cycle for the
    /// stack-pointer step.
    fn jump_to_subroutine(&mut self, cycles: &mut s32, memory: &mut Mem)
        requires
            *old(cycles) >= i32::MIN + 5,
        ensures
            *final(self) == jump_to_subroutine_transition(*old(self), old(memory)@).cpu,
            final(memory)@ == jump_to_subroutine_transition(*old(self), old(memory)@).mem,
            *final(cycles) == *old(cycles) - 5,
    {
        let target = self.fetch_word(cycles, memory);
        let return_address = self.pc.wrapping_sub(1);
        let stack_slot = STACK_PAGE + self.sp % 0x100;
        self.write_word(return_address, cycles, stack_slot, memory);
        self.pc = target;
        *cycles = *cycles - 1;
    }

    /// Executes the one instruction at the program counter, charging its
    /// cycles to `cycles`. An opcode with no operation costs its fetch and is
    /// returned.
    pub fn step(&mut self, cycles: &mut s32, memory: &mut Mem) -> (r: Option<InvalidOpcode>)
        requires
            *old(cycles) >= i32::MIN + 7,
        ensures
            *final(self) == step_transition(*old(self), old(memory)@).cpu,
            final(memory)@ == step_transition(*old(self), old(memory)@).mem,
            *final(cycles) == *old(cycles) - step_transition(*old(self), old(memory)@).cycles,
            r == step_transition(*old(self), old(memory)@).fault,
    {
        let address = self.pc;
        let opcode = self.fetch_byte(cycles, memory);
        match decode(opcode) {
            Instruction::Load(r, mode) => {
                self.load_register(r, mode, cycles, memory);
                None
            },
            Instruction::Store(r, mode) => {
                self.store_register(r, mode, cycles, memory);
                None
            },
            Instruction::JumpToSubroutine => {
                self.jump_to_subroutine(cycles, memory);
                None
            },
            Instruction::Unhandled => Some(InvalidOpcode { opcode, address }),
        }
    }
}

impl CPU {
    /// Runs whole instructions while budget is left and returns the cycles
    /// actually used, with every unhandled opcode met, in order. An
    /// instruction once started always completes, so the cycles used can
    /// exceed `cycles` (by at most five); a budget of zero or less runs
    /// nothing.
    pub fn execute_reporting(&mut self, cycles: s32, memory: &mut Mem) -> (r: (s32, Vec<InvalidOpcode>))
        requires
            cycles <= i32::MAX - 5,
        ensures
            ({
                let outcome = run(*old(self), old(memory)@, cycles as int);
                &&& *final(self) == outcome.cpu
                &&& final(memory)@ == outcome.mem
                &&& r.0 == cycles - outcome.remaining
                &&& r.1@ == outcome.faults
            }),
    {
        let mut remaining = cycles;
        let mut faults: Vec<InvalidOpcode> = Vec::new();
        while remaining > 0
            invariant
                remaining == cycles || -5 <= remaining < cycles,
                ({
                    let total = run(*old(self), old(memory)@, cycles as int);
                    let rest = run(*self, memory@, remaining as int);
                    &&& total.cpu == rest.cpu
                    &&& total.mem == rest.mem
                    &&& total.remaining == rest.remaining
                    &&& total.faults == faults@ + rest.faults
                }),
            decreases remaining + 5,
        {
            proof {
                lemma_step_cycles(*self, memory@);
            }
            let ghost before = faults@;
            let ghost t = step_transition(*self, memory@);
            let fault = self.step(&mut remaining, memory);
            if let Some(f) = fault {
                faults.push(f);
            }
            proof {
                let rest = run(*self, memory@, remaining as int);
                assert(before + (fault_seq(t.fault) + rest.faults) =~= faults@ + rest.faults);
            }
        }
        (cycles - remaining, faults)
    }

    /// Runs whole instructions while budget is left and returns the cycles
    /// actually used; see `execute_reporting`, which also returns the
    /// unhandled opcodes met.
    pub fn execute(&mut self, cycles: s32, memory: &mut Mem) -> (r: s32)
        requires
            cycles <= i32::MAX - 5,
        ensures
            ({
                let outcome = run(*old(self), old(memory)@, cycles as int);
                &&& *final(self) == outcome.cpu
                &&& final(memory)@ == outcome.mem
                &&& r == cycles - outcome.remaining
            }),
    {
        self.execute_reporting(cycles, memory).0
    }
}

} // verus!
