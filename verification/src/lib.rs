//! A CHIP-8 virtual machine: machine state, a single-step execution
//! primitive, timers, keypad and a monochrome framebuffer.

#![allow(unused_imports)]

pub mod config;
pub mod drivers;
pub mod emu;
