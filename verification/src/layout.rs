//! Sizes and fixed addresses of the machine, and the built-in font.

use vstd::prelude::*;

verus! {

/// Number of addressable bytes: addresses run from 0x000 to 0xFFF.
pub const MEMORY_SIZE: usize = 4096;

/// Number of general-purpose registers, V0 to VF.
pub const REGISTER_COUNT: usize = 16;

/// Index of VF, the register that receives carry, borrow and collision flags.
pub const FLAG_REGISTER: usize = 15;

/// Width of the display in pixels.
pub const FRAME_WIDTH: usize = 64;

/// Height of the display in pixels.
pub const FRAME_HEIGHT: usize = 32;

/// Number of pixels, stored row by row.
pub const FRAME_SIZE: usize = 2048;

/// Number of keys on the keypad.
pub const KEY_COUNT: usize = 16;

/// Address of the first byte of the font.
pub const FONT_START: usize = 0x50;

/// Bytes per glyph: five rows of which the high nibble is drawn.
pub const GLYPH_SIZE: usize = 5;

/// Size of the font: sixteen glyphs.
pub const FONT_SIZE: usize = 80;

/// Address at which programs are loaded and execution starts.
pub const PROGRAM_START: usize = 0x200;

/// Largest program that fits between `PROGRAM_START` and the end of memory.
pub const PROGRAM_MAX: usize = 3584;

/// Depth of the call stack of a machine built without an explicit limit.
/// The architecture fixes none; sixteen is the depth most interpreters offer.
pub const DEFAULT_STACK_LIMIT: usize = 16;

/// Seed of the random generator when the operating system offers no entropy.
pub const FALLBACK_SEED: u64 = 0x00C8_1980_C0FF_EE08;

/// The glyphs of the hexadecimal digits 0 to F, five bytes each.
pub const FONT: [u8; 80] = [
    0xF0, 0x90, 0x90, 0x90, 0xF0,
    0x20, 0x60, 0x20, 0x20, 0x70,
    0xF0, 0x10, 0xF0, 0x80, 0xF0,
    0xF0, 0x10, 0xF0, 0x10, 0xF0,
    0x90, 0x90, 0xF0, 0x10, 0x10,
    0xF0, 0x80, 0xF0, 0x10, 0xF0,
    0xF0, 0x80, 0xF0, 0x90, 0xF0,
    0xF0, 0x10, 0x20, 0x40, 0x40,
    0xF0, 0x90, 0xF0, 0x90, 0xF0,
    0xF0, 0x90, 0xF0, 0x10, 0xF0,
    0xF0, 0x90, 0xF0, 0x90, 0x90,
    0xE0, 0x90, 0xE0, 0x90, 0xE0,
    0xF0, 0x80, 0x80, 0x80, 0xF0,
    0xE0, 0x90, 0x90, 0x90, 0xE0,
    0xF0, 0x80, 0xF0, 0x80, 0xF0,
    0xF0, 0x80, 0xF0, 0x80, 0x80,
];

/// `memory` with the font copied to its place.
pub open spec fn with_font(memory: Seq<u8>) -> Seq<u8> {
    Seq::new(
        memory.len(),
        |a: int|
            if FONT_START <= a < FONT_START + FONT_SIZE {
                FONT[a - FONT_START]
            } else {
                memory[a]
            },
    )
}

} // verus!
