//! A CHIP-8 virtual machine: processor state, instruction semantics, sprite
//! drawing and the decaying delay timer.
//!
//! The machine is modelled mathematically by [`state::CpuState`]; every
//! instruction's effect on that model is given by
//! [`semantics::next_state`], and the executable [`cpu::Cpu`] is proved to
//! follow it.

pub mod cpu;
pub mod diagnostics;
pub mod display;
pub mod driver;
pub mod font;
pub mod instruction;
pub mod laws;
pub mod semantics;
pub mod state;
pub mod timer;
