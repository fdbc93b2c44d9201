//! Core of a 32-bit MIPS-derived console CPU: a single-step interpreter over
//! a general-purpose register file, a memory-mapped bus, and a system
//! coprocessor, reproducing the architecture's branch-delay and load-delay
//! visibility rules.
//!
//! The host constructs a [`bios::Bios`] from a boot image, wraps it in a
//! [`bus::Bus`], builds a [`cpu::Cpu`] on top, and then drives execution by
//! calling [`cpu::Cpu::clock`] once per instruction.

pub mod bios;
pub mod bus;
pub mod cop0;
pub mod ram;
pub mod cpu;
pub mod instr;
