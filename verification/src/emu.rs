//! The emulator core.

pub mod cpu;
pub mod draw;
pub mod font;
pub mod frame;
pub mod keypad;
pub mod laws;
pub mod machine;
pub mod ops;
pub mod random;
