//! The display: a grid of one-bit pixels stored row by row, and what drawing
//! a sprite does to it.
//!
//! A sprite is a sequence of rows, one byte each, whose most significant bit
//! is the leftmost pixel. It is drawn at an anchor `(vx, vy)`; every pixel
//! wraps around the edges of the display on its own. Drawing flips the pixels
//! under the set bits of the sprite, and collides when it clears one.

use vstd::prelude::*;

verus! {

/// The cell that holds the pixel at `(x, y)`, both wrapped onto the display.
pub open spec fn cell_of(x: int, y: int) -> int {
    (y % 32) * 64 + (x % 64)
}

/// The sprite column that lands on cell `p` when the sprite is anchored at
/// column `vx`: how far `p` lies to the right of the anchor, going round.
pub open spec fn sprite_column(p: int, vx: int) -> int {
    (p % 64 - vx) % 64
}

/// The sprite row that lands on cell `p` when the sprite is anchored at row
/// `vy`: how far `p` lies below the anchor, going round.
pub open spec fn sprite_row(p: int, vy: int) -> int {
    (p / 64 - vy) % 32
}

/// Whether the pixel in column `col` of a sprite row is set. Column 0 is the
/// most significant bit.
pub open spec fn sprite_bit(row: u8, col: int) -> bool {
    0 <= col < 8 && (row >> ((7 - col) as u8)) & 1 == 1
}

/// Whether drawing `rows` at `(vx, vy)` flips cell `p`: a set bit of the
/// sprite lands on it.
pub open spec fn sprite_hits(rows: Seq<u8>, vx: int, vy: int, p: int) -> bool {
    sprite_row(p, vy) < rows.len() && sprite_bit(rows[sprite_row(p, vy)], sprite_column(p, vx))
}

/// A pixel after it was flipped.
pub open spec fn flipped(pixel: u8) -> u8 {
    if pixel == 0 {
        1
    } else {
        0
    }
}

/// The display after `rows` was drawn at `(vx, vy)`.
pub open spec fn frame_after_draw(frame: Seq<u8>, rows: Seq<u8>, vx: int, vy: int) -> Seq<u8> {
    Seq::new(
        frame.len(),
        |p: int|
            if sprite_hits(rows, vx, vy, p) {
                flipped(frame[p])
            } else {
                frame[p]
            },
    )
}

/// Whether drawing `rows` at `(vx, vy)` clears a pixel that was set.
pub open spec fn draw_collides(frame: Seq<u8>, rows: Seq<u8>, vx: int, vy: int) -> bool {
    exists|p: int| 0 <= p < frame.len() && frame[p] == 1 && #[trigger] sprite_hits(rows, vx, vy, p)
}

/// Whether drawing `rows` at `(vx, vy)` sets a pixel that was clear.
pub open spec fn draw_lights(frame: Seq<u8>, rows: Seq<u8>, vx: int, vy: int) -> bool {
    exists|p: int| 0 <= p < frame.len() && frame[p] == 0 && #[trigger] sprite_hits(rows, vx, vy, p)
}

/// The pixel in row `row` and column `col` of a sprite lands on exactly one
/// cell, and from that cell the row and column are found again.
pub proof fn lemma_cell_of_sprite_pixel(vx: int, vy: int, row: int, col: int)
    requires
        0 <= row < 32,
        0 <= col < 64,
    ensures
        0 <= cell_of(vx + col, vy + row) < 2048,
        sprite_row(cell_of(vx + col, vy + row), vy) == row,
        sprite_column(cell_of(vx + col, vy + row), vx) == col,
{
}

/// Every cell of the display is the landing place of one sprite position.
pub proof fn lemma_sprite_pixel_of_cell(vx: int, vy: int, p: int)
    requires
        0 <= p < 2048,
    ensures
        0 <= sprite_row(p, vy) < 32,
        0 <= sprite_column(p, vx) < 64,
        cell_of(vx + sprite_column(p, vx), vy + sprite_row(p, vy)) == p,
{
}

} // verus!
