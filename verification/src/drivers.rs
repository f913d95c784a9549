//! The parts of the host drivers that compute: program images and the
//! keyboard layout.

pub mod file;
pub mod input;
pub mod video;
