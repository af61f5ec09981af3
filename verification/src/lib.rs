//! A CHIP-8 virtual machine core: a fixed instruction set interpreter over
//! 4096 bytes of memory, sixteen 8-bit registers, a 64x32 monochrome
//! framebuffer, two countdown timers and a 16-key input matrix.
//!
//! The interpreter owns the whole machine state and exposes a single-step
//! operation that performs one fetch-decode-execute cycle plus a timer tick.
//! Terminal rendering, keyboard polling, audio and pacing live outside the
//! core; the core only exposes the data those collaborators need.

pub mod control;
pub mod decode;
pub mod draw;
pub mod laws;
pub mod loader;
pub mod machine;
pub mod model;
pub mod render;
mod rng;
pub mod trace;

pub use decode::Instr;
pub use decode::decode;
pub use model::StepError;
pub use machine::{Chip8, DebugInfo, init};
pub use control::KeyActions;
pub use loader::{LoadError, load_image};
