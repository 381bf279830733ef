use vstd::prelude::*;

use super::memory::{zeroed, Mem};

verus! {

/// An 8-bit quantity.
pub type Byte = u8;

/// A 16-bit quantity, stored little-endian in memory.
pub type Word = u16;

/// The signed counter in which cycle budgets are given and returned.
#[allow(non_camel_case_types)]
pub type s32 = i32;

/// Where the program counter points after a reset.
pub const RESET_VECTOR: u16 = 0xFFFC;

/// The stack pointer's value after a reset; the stack lives in page one.
pub const STACK_PAGE: u16 = 0x0100;

/// Register and status-flag state of the processor.
///
/// The seven status flags are plain booleans; their accessors present each
/// as a one-bit number (0 or 1).
#[derive(Clone, Copy, Debug, PartialEq, Eq)]
pub struct CPU {
    /// Program counter.
    pub pc: u16,
    /// Stack pointer; only its low byte selects a cell within page one.
    pub sp: u16,
    /// Accumulator.
    pub a: u8,
    /// Index register X.
    pub x: u8,
    /// Index register Y.
    pub y: u8,
    /// Carry flag.
    pub c: bool,
    /// Zero flag.
    pub z: bool,
    /// Interrupt-disable flag.
    pub i: bool,
    /// Decimal-mode flag.
    pub d: bool,
    /// Break flag.
    pub b: bool,
    /// Overflow flag.
    pub v: bool,
    /// Negative flag.
    pub n: bool,
}

/// One of the three general registers.
#[derive(Clone, Copy, Debug, PartialEq, Eq)]
pub enum Register {
    A,
    X,
    Y,
}

/// Zero flag after loading `value`: set iff the value is zero.
pub open spec fn zero_flag_of(value: u8) -> bool {
    value == 0
}

/// Negative flag after loading `value`: set iff bit 7 is set.
pub open spec fn negative_flag_of(value: u8) -> bool {
    value & 0x80 != 0
}

impl CPU {
    /// All registers and flags zero.
    pub open spec fn zero_state() -> CPU {
        CPU {
            pc: 0,
            sp: 0,
            a: 0,
            x: 0,
            y: 0,
            c: false,
            z: false,
            i: false,
            d: false,
            b: false,
            v: false,
            n: false,
        }
    }

    /// The state that `reset` establishes.
    pub open spec fn reset_state() -> CPU {
        CPU { pc: RESET_VECTOR, sp: STACK_PAGE, ..CPU::zero_state() }
    }

    /// The value of general register `r`.
    pub open spec fn register(self, r: Register) -> u8 {
        match r {
            Register::A => self.a,
            Register::X => self.x,
            Register::Y => self.y,
        }
    }

    /// This state with general register `r` holding `value`.
    pub open spec fn with_register(self, r: Register, value: u8) -> CPU {
        match r {
            Register::A => CPU { a: value, ..self },
            Register::X => CPU { x: value, ..self },
            Register::Y => CPU { y: value, ..self },
        }
    }

    /// This state with Zero and Negative set from a loaded `value`.
    pub open spec fn with_load_status(self, value: u8) -> CPU {
        CPU { z: zero_flag_of(value), n: negative_flag_of(value), ..self }
    }

    /// A processor with every register and flag zero.
    pub fn new() -> (r: CPU)
        ensures
            r == CPU::zero_state(),
    {
        CPU {
            pc: 0,
            sp: 0,
            a: 0,
            x: 0,
            y: 0,
            c: false,
            z: false,
            i: false,
            d: false,
            b: false,
            v: false,
            n: false,
        }
    }

    /// Reinitialises the processor and clears memory: the program counter
    /// points at the reset vector location, the stack pointer at page one,
    /// and every other register and flag is zero.
    ///
    /// The program counter is set to the vector's address itself rather than
    /// to a word read from it: the bytes at that address are executed as the
    /// first instruction.
    pub fn reset(&mut self, memory: &mut Mem)
        ensures
            *final(self) == CPU::reset_state(),
            final(memory)@ == zeroed(),
    {
        *self = CPU { pc: RESET_VECTOR, sp: STACK_PAGE, ..CPU::new() };
        memory.clear();
    }

    /// The value of general register `r`.
    pub fn get_register(&self, r: Register) -> (value: u8)
        ensures
            value == self.register(r),
    {
        match r {
            Register::A => self.a,
            Register::X => self.x,
            Register::Y => self.y,
        }
    }

    /// Puts `value` into general register `r`, leaving everything else.
    pub fn set_register(&mut self, r: Register, value: u8)
        ensures
            *final(self) == old(self).with_register(r, value),
    {
        match r {
            Register::A => self.a = value,
            Register::X => self.x = value,
            Register::Y => self.y = value,
        }
    }

    /// Sets Zero and Negative from a value just loaded into a register; no
    /// other flag is touched.
    pub fn load_register_set_status(&mut self, value: u8)
        ensures
            *final(self) == old(self).with_load_status(value),
    {
        self.z = value == 0;
        self.n = value & 0x80 != 0;
    }
}

/// A status flag as a one-bit number.
pub open spec fn bit_of(flag: bool) -> u8 {
    if flag {
        1
    } else {
        0
    }
}

impl CPU {
    /// Program counter.
    pub fn pc(&self) -> (r: u16)
        ensures
            r == self.pc,
    {
        self.pc
    }

    /// Sets the program counter.
    pub fn set_pc(&mut self, value: u16)
        ensures
            *final(self) == (CPU { pc: value, ..*old(self) }),
    {
        self.pc = value;
    }

    /// Stack pointer.
    pub fn sp(&self) -> (r: u16)
        ensures
            r == self.sp,
    {
        self.sp
    }

    /// Sets the stack pointer.
    pub fn set_sp(&mut self, value: u16)
        ensures
            *final(self) == (CPU { sp: value, ..*old(self) }),
    {
        self.sp = value;
    }

    /// Accumulator.
    pub fn a(&self) -> (r: u8)
        ensures
            r == self.a,
    {
        self.a
    }

    /// Sets the accumulator.
    pub fn set_a(&mut self, value: u8)
        ensures
            *final(self) == (CPU { a: value, ..*old(self) }),
    {
        self.a = value;
    }

    /// Index register X.
    pub fn x(&self) -> (r: u8)
        ensures
            r == self.x,
    {
        self.x
    }

    /// Sets the index register X.
    pub fn set_x(&mut self, value: u8)
        ensures
            *final(self) == (CPU { x: value, ..*old(self) }),
    {
        self.x = value;
    }

    /// Index register Y.
    pub fn y(&self) -> (r: u8)
        ensures
            r == self.y,
    {
        self.y
    }

    /// Sets the index register Y.
    pub fn set_y(&mut self, value: u8)
        ensures
            *final(self) == (CPU { y: value, ..*old(self) }),
    {
        self.y = value;
    }

    /// Carry flag: 1 when set, 0 when clear.
    pub fn c(&self) -> (r: u8)
        ensures
            r == bit_of(self.c),
    {
        if self.c {
            1
        } else {
            0
        }
    }

    /// Sets the carry flag from a one-bit number.
    pub fn set_c(&mut self, value: u8)
        requires
            value <= 1,
        ensures
            *final(self) == (CPU { c: value == 1, ..*old(self) }),
    {
        self.c = value == 1;
    }

    /// Zero flag: 1 when set, 0 when clear.
    pub fn z(&self) -> (r: u8)
        ensures
            r == bit_of(self.z),
    {
        if self.z {
            1
        } else {
            0
        }
    }

    /// Sets the zero flag from a one-bit number.
    pub fn set_z(&mut self, value: u8)
        requires
            value <= 1,
        ensures
            *final(self) == (CPU { z: value == 1, ..*old(self) }),
    {
        self.z = value == 1;
    }

    /// Interrupt-disable flag: 1 when set, 0 when clear.
    pub fn i(&self) -> (r: u8)
        ensures
            r == bit_of(self.i),
    {
        if self.i {
            1
        } else {
            0
        }
    }

    /// Sets the interrupt-disable flag from a one-bit number.
    pub fn set_i(&mut self, value: u8)
        requires
            value <= 1,
        ensures
            *final(self) == (CPU { i: value == 1, ..*old(self) }),
    {
        self.i = value == 1;
    }

    /// Decimal-mode flag: 1 when set, 0 when clear.
    pub fn d(&self) -> (r: u8)
        ensures
            r == bit_of(self.d),
    {
        if self.d {
            1
        } else {
            0
        }
    }

    /// Sets the decimal-mode flag from a one-bit number.
    pub fn set_d(&mut self, value: u8)
        requires
            value <= 1,
        ensures
            *final(self) == (CPU { d: value == 1, ..*old(self) }),
    {
        self.d = value == 1;
    }

    /// Break flag: 1 when set, 0 when clear.
    pub fn b(&self) -> (r: u8)
        ensures
            r == bit_of(self.b),
    {
        if self.b {
            1
        } else {
            0
        }
    }

    /// Sets the break flag from a one-bit number.
    pub fn set_b(&mut self, value: u8)
        requires
            value <= 1,
        ensures
            *final(self) == (CPU { b: value == 1, ..*old(self) }),
    {
        self.b = value == 1;
    }

    /// Overflow flag: 1 when set, 0 when clear.
    pub fn v(&self) -> (r: u8)
        ensures
            r == bit_of(self.v),
    {
        if self.v {
            1
        } else {
            0
        }
    }

    /// Sets the overflow flag from a one-bit number.
    pub fn set_v(&mut self, value: u8)
        requires
            value <= 1,
        ensures
            *final(self) == (CPU { v: value == 1, ..*old(self) }),
    {
        self.v = value == 1;
    }

    /// Negative flag: 1 when set, 0 when clear.
    pub fn n(&self) -> (r: u8)
        ensures
            r == bit_of(self.n),
    {
        if self.n {
            1
        } else {
            0
        }
    }

    /// Sets the negative flag from a one-bit number.
    pub fn set_n(&mut self, value: u8)
        requires
            value <= 1,
        ensures
            *final(self) == (CPU { n: value == 1, ..*old(self) }),
    {
        self.n = value == 1;
    }
}

} // verus!
