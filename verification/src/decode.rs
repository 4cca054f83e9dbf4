//! The fields of a 16-bit instruction word.
//!
//! A word is four nibbles. The first selects the instruction family; the
//! second and third name registers X and Y; the low byte is the immediate KK
//! and the low twelve bits are the address NNN.

use vstd::prelude::*;

verus! {

/// The instruction family: the first nibble, bits 12 to 15.
pub open spec fn family_of(opcode: u16) -> int {
    opcode as int / 0x1000
}

/// Register index X: the second nibble, bits 8 to 11.
pub open spec fn x_of(opcode: u16) -> int {
    (opcode as int / 0x100) % 0x10
}

/// Register index Y: the third nibble, bits 4 to 7.
pub open spec fn y_of(opcode: u16) -> int {
    (opcode as int / 0x10) % 0x10
}

/// The last nibble, bits 0 to 3: a sub-operation or a sprite height.
pub open spec fn n_of(opcode: u16) -> int {
    opcode as int % 0x10
}

/// The immediate KK: the low byte.
pub open spec fn kk_of(opcode: u16) -> u8 {
    (opcode as int % 0x100) as u8
}

/// The address NNN: the low twelve bits.
pub open spec fn nnn_of(opcode: u16) -> u16 {
    (opcode as int % 0x1000) as u16
}

/// Extracts the instruction family.
pub fn get_family(opcode: u16) -> (family: u8)
    ensures
        family as int == family_of(opcode),
        family < 16,
{
    assert(opcode >> 12 == opcode / 0x1000 && (opcode >> 12) < 16) by (bit_vector);
    (opcode >> 12) as u8
}

/// Extracts register index X.
pub fn get_x(opcode: u16) -> (x: usize)
    ensures
        x as int == x_of(opcode),
        x < 16,
{
    assert((opcode & 0x0F00) >> 8 == (opcode / 0x100) % 0x10) by (bit_vector);
    ((opcode & 0x0F00) >> 8) as usize
}

/// Extracts register index Y.
pub fn get_y(opcode: u16) -> (y: usize)
    ensures
        y as int == y_of(opcode),
        y < 16,
{
    assert((opcode & 0x00F0) >> 4 == (opcode / 0x10) % 0x10) by (bit_vector);
    ((opcode & 0x00F0) >> 4) as usize
}

/// Extracts the last nibble.
pub fn get_n(opcode: u16) -> (n: u8)
    ensures
        n as int == n_of(opcode),
        n < 16,
{
    assert(opcode & 0x000F == opcode % 0x10) by (bit_vector);
    (opcode & 0x000F) as u8
}

/// Extracts the immediate KK.
pub fn get_kk(opcode: u16) -> (kk: u8)
    ensures
        kk == kk_of(opcode),
{
    assert(opcode & 0x00FF == opcode % 0x100) by (bit_vector);
    (opcode & 0x00FF) as u8
}

/// Extracts the address NNN.
pub fn get_nnn(opcode: u16) -> (nnn: u16)
    ensures
        nnn == nnn_of(opcode),
        nnn < 0x1000,
{
    assert(opcode & 0x0FFF == opcode % 0x1000) by (bit_vector);
    opcode & 0x0FFF
}

} // verus!
