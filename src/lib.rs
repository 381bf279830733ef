//! An instruction-level emulator core for a 6502-class 8-bit processor:
//! flat 64 KiB memory, register and flag state, addressing-mode resolution
//! and a cycle-accurate fetch-decode-execute loop.
pub mod m6502;
