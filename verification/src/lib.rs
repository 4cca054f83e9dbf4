//! A CHIP-8 virtual machine core whose instruction semantics are proved
//! against a mathematical model of the machine.
//!
//! - [`machine`] holds the model: a [`machine::Machine`] is the whole state
//!   as sequences and integers, and [`machine::Machine::execute`] says what
//!   one instruction word does to it.
//! - [`display`] says what drawing a sprite does to the display.
//! - [`decode`] extracts the fields of an instruction word.
//! - [`engine`] holds the executable machine, [`Chip8`], which is proved to
//!   follow the model instruction by instruction.
//! - [`laws`] holds theorems about the instruction set as a whole.
//! - [`layout`] holds the sizes, the fixed addresses and the font.
//! - [`rng`] is the boundary to the `rand` crate, which is trusted.
//!
//! The host drives the machine: it loads a program, calls
//! [`Chip8::tick`] at its own pace, reports keys with [`Chip8::set_key`],
//! and reads the display, the sound timer and the rest of the state through
//! the getters. Every failure of an instruction is a [`Chip8Error`] that the
//! host may act on as it sees fit.

pub mod decode;
pub mod display;
pub mod engine;
pub mod error;
pub mod laws;
pub mod layout;
pub mod machine;
pub mod rng;

pub use engine::Chip8;
pub use error::{Chip8Error, Effect};
