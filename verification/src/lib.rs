//! A verified core for a small historical virtual machine: an 8-bit
//! interpreted instruction set over 4KB of memory, sixteen registers, a
//! 16-level call stack, two countdown timers, a monochrome pixel buffer and a
//! 16-key input device.
//!
//! The machine state lives in [`cpu::Chip8`]; its mathematical model is
//! [`semantics::MachineView`]. Every instruction's effect is written down once,
//! in the specification function [`semantics::spec_exec`], and the executor is
//! proved to follow it exactly. [`decode`] maps each 16-bit instruction word
//! to a tagged instruction, totally and deterministically, and [`laws`] states
//! the general properties of the machine as proved theorems.

pub mod cpu;
pub mod decode;
pub mod font;
pub mod laws;
pub mod rand;
pub mod semantics;
