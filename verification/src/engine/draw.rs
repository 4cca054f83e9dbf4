//! Drawing: one pixel, and a whole sprite.

use vstd::prelude::*;
use crate::decode::{get_n, get_x, get_y};
use crate::display::{
    cell_of, draw_collides, flipped, frame_after_draw, sprite_bit, sprite_column, sprite_hits,
    sprite_row,
};
use crate::engine::Chip8;
use crate::error::Chip8Error;
use crate::layout::{FLAG_REGISTER, FRAME_HEIGHT, FRAME_WIDTH, MEMORY_SIZE};
use crate::machine::{reported, settled, Machine};

verus! {

/// Whether the sprite pixel that lands on cell `p` is drawn before the pixel
/// in row `row` and column `col`, rows going down and columns to the right.
spec fn drawn_before(p: int, vx: int, vy: int, row: int, col: int) -> bool {
    sprite_row(p, vy) < row || (sprite_row(p, vy) == row && sprite_column(p, vx) < col)
}

/// The display at the moment when the pixel in row `row` and column `col` is
/// the next to be drawn.
spec fn frame_in_progress(
    frame: Seq<u8>,
    rows: Seq<u8>,
    vx: int,
    vy: int,
    row: int,
    col: int,
) -> Seq<u8> {
    Seq::new(
        frame.len(),
        |p: int|
            if sprite_hits(rows, vx, vy, p) && drawn_before(p, vx, vy, row, col) {
                flipped(frame[p])
            } else {
                frame[p]
            },
    )
}

/// Whether a pixel drawn before row `row` and column `col` cleared a cell.
spec fn collision_in_progress(
    frame: Seq<u8>,
    rows: Seq<u8>,
    vx: int,
    vy: int,
    row: int,
    col: int,
) -> bool {
    exists|p: int|
        0 <= p < frame.len() && frame[p] == 1 && #[trigger] sprite_hits(rows, vx, vy, p)
            && drawn_before(p, vx, vy, row, col)
}

/// Before the first pixel the display is untouched.
proof fn lemma_draw_begins(frame: Seq<u8>, rows: Seq<u8>, vx: int, vy: int)
    ensures
        frame_in_progress(frame, rows, vx, vy, 0, 0) == frame,
        !collision_in_progress(frame, rows, vx, vy, 0, 0),
{
    assert(frame_in_progress(frame, rows, vx, vy, 0, 0) =~= frame);
}

/// Drawing one pixel takes the display from one moment to the next.
proof fn lemma_draw_advances(frame: Seq<u8>, rows: Seq<u8>, vx: int, vy: int, row: int, col: int)
    requires
        frame.len() == 2048,
        rows.len() <= 32,
        0 <= row < rows.len(),
        0 <= col < 8,
    ensures
        ({
            let p = cell_of(vx + col, vy + row);
            let bit = sprite_bit(rows[row], col);
            let now = frame_in_progress(frame, rows, vx, vy, row, col);
            &&& 0 <= p < 2048
            &&& now[p] == frame[p]
            &&& frame_in_progress(frame, rows, vx, vy, row, col + 1) == if bit {
                now.update(p, flipped(now[p]))
            } else {
                now
            }
            &&& collision_in_progress(frame, rows, vx, vy, row, col + 1) == (collision_in_progress(
                frame,
                rows,
                vx,
                vy,
                row,
                col,
            ) || (bit && frame[p] == 1))
        }),
{
    let p = cell_of(vx + col, vy + row);
    let bit = sprite_bit(rows[row], col);
    let now = frame_in_progress(frame, rows, vx, vy, row, col);
    let next = frame_in_progress(frame, rows, vx, vy, row, col + 1);
    crate::display::lemma_cell_of_sprite_pixel(vx, vy, row, col);
    assert forall|q: int| 0 <= q < 2048 && sprite_row(q, vy) == row && sprite_column(q, vx)
        == col implies q == p by {
        crate::display::lemma_sprite_pixel_of_cell(vx, vy, q);
    }
    assert(sprite_hits(rows, vx, vy, p) == bit);
    if bit {
        assert(next =~= now.update(p, flipped(now[p])));
    } else {
        assert(next =~= now);
    }
    if collision_in_progress(frame, rows, vx, vy, row, col + 1) {
        let q = choose|q: int|
            0 <= q < frame.len() && frame[q] == 1 && #[trigger] sprite_hits(rows, vx, vy, q)
                && drawn_before(q, vx, vy, row, col + 1);
        if q != p {
            assert(drawn_before(q, vx, vy, row, col));
        }
    }
    if collision_in_progress(frame, rows, vx, vy, row, col) {
        let q = choose|q: int|
            0 <= q < frame.len() && frame[q] == 1 && #[trigger] sprite_hits(rows, vx, vy, q)
                && drawn_before(q, vx, vy, row, col);
        assert(drawn_before(q, vx, vy, row, col + 1));
    }
    if bit && frame[p] == 1 {
        assert(sprite_hits(rows, vx, vy, p) && drawn_before(p, vx, vy, row, col + 1));
    }
}

/// After the last pixel of a row the next row begins.
proof fn lemma_draw_row_ends(frame: Seq<u8>, rows: Seq<u8>, vx: int, vy: int, row: int)
    ensures
        frame_in_progress(frame, rows, vx, vy, row, 8) == frame_in_progress(
            frame,
            rows,
            vx,
            vy,
            row + 1,
            0,
        ),
        collision_in_progress(frame, rows, vx, vy, row, 8) == collision_in_progress(
            frame,
            rows,
            vx,
            vy,
            row + 1,
            0,
        ),
{
    assert forall|p: int| #[trigger]
        sprite_hits(rows, vx, vy, p) implies drawn_before(p, vx, vy, row, 8) == drawn_before(
        p,
        vx,
        vy,
        row + 1,
        0,
    ) by {}
    assert(frame_in_progress(frame, rows, vx, vy, row, 8) =~= frame_in_progress(
        frame,
        rows,
        vx,
        vy,
        row + 1,
        0,
    ));
    if collision_in_progress(frame, rows, vx, vy, row, 8) {
        let q = choose|q: int|
            0 <= q < frame.len() && frame[q] == 1 && #[trigger] sprite_hits(rows, vx, vy, q)
                && drawn_before(q, vx, vy, row, 8);
        assert(drawn_before(q, vx, vy, row + 1, 0));
    }
    if collision_in_progress(frame, rows, vx, vy, row + 1, 0) {
        let q = choose|q: int|
            0 <= q < frame.len() && frame[q] == 1 && #[trigger] sprite_hits(rows, vx, vy, q)
                && drawn_before(q, vx, vy, row + 1, 0);
        assert(drawn_before(q, vx, vy, row, 8));
    }
}

/// After the last row the sprite is drawn.
proof fn lemma_draw_ends(frame: Seq<u8>, rows: Seq<u8>, vx: int, vy: int)
    ensures
        frame_in_progress(frame, rows, vx, vy, rows.len() as int, 0) == frame_after_draw(
            frame,
            rows,
            vx,
            vy,
        ),
        collision_in_progress(frame, rows, vx, vy, rows.len() as int, 0) == draw_collides(
            frame,
            rows,
            vx,
            vy,
        ),
{
    let height = rows.len() as int;
    assert forall|p: int| #[trigger] sprite_hits(rows, vx, vy, p) implies drawn_before(
        p,
        vx,
        vy,
        height,
        0,
    ) by {}
    assert(frame_in_progress(frame, rows, vx, vy, height, 0) =~= frame_after_draw(
        frame,
        rows,
        vx,
        vy,
    ));
    if collision_in_progress(frame, rows, vx, vy, height, 0) {
        let q = choose|q: int|
            0 <= q < frame.len() && frame[q] == 1 && #[trigger] sprite_hits(rows, vx, vy, q)
                && drawn_before(q, vx, vy, height, 0);
        assert(draw_collides(frame, rows, vx, vy));
    }
    if draw_collides(frame, rows, vx, vy) {
        let q = choose|q: int|
            0 <= q < frame.len() && frame[q] == 1 && #[trigger] sprite_hits(rows, vx, vy, q);
        assert(drawn_before(q, vx, vy, height, 0));
    }
}

impl Chip8 {
    /// Combines the pixel at `(x, y)` by exclusive or with `val`, which is 0
    /// or 1. Both coordinates wrap around the display. Tells whether the
    /// pixel was set and is now clear.
    pub fn xor_pixel(&mut self, x: usize, y: usize, val: u8) -> (collision: bool)
        requires
            old(self)@.wf(),
            val <= 1,
        ensures
            final(self)@ == old(self)@.xor_pixel(x as int, y as int, val == 1),
            collision == (val == 1 && old(self)@.frame[cell_of(x as int, y as int)] == 1),
            final(self)@.wf(),
            final(self).generator() == old(self).generator(),
    {
        let index = (y % FRAME_HEIGHT) * FRAME_WIDTH + (x % FRAME_WIDTH);
        let start_val = self.frame_buffer[index];
        assert(start_val <= 1 && val <= 1 ==> (start_val ^ val) == (if val == 1 {
            1 - start_val
        } else {
            start_val as int
        })) by (bit_vector);
        self.frame_buffer[index] = start_val ^ val;
        assert(self@.frame =~= old(self)@.xor_pixel(x as int, y as int, val == 1).frame);
        start_val == 1 && self.frame_buffer[index] == 0
    }

    /// DXYN: draws the sprite of N rows that memory holds from I on, with
    /// its top left pixel at the coordinates that VX and VY hold.
    ///
    /// Each row is one byte, its most significant bit leftmost. Every pixel
    /// wraps around the display on its own. The pixels under set bits are
    /// flipped. VF becomes 1 where at least one pixel that was set is now
    /// clear, and 0 otherwise. A sprite that reaches past the end of memory
    /// is refused.
    pub fn display_sprite(&mut self, opcode: u16) -> (result: Result<(), Chip8Error>)
        requires
            old(self)@.wf(),
        ensures
            final(self)@ == settled(old(self)@, old(self)@.display_sprite(opcode)),
            result == reported(old(self)@.display_sprite(opcode), ()),
            final(self)@.wf(),
            final(self).generator() == old(self).generator(),
    {
        let height = get_n(opcode) as usize;
        let vx = self.reg[get_x(opcode)] as usize;
        let vy = self.reg[get_y(opcode)] as usize;
        let start = self.index_reg as usize;
        if height > 0 && start + height > MEMORY_SIZE {
            return Err(Chip8Error::MemoryOutOfBounds);
        }
        let ghost before = self@;
        let ghost rows = before.sprite_rows(height as int);
        self.reg[FLAG_REGISTER] = 0;
        proof {
            lemma_draw_begins(before.frame, rows, vx as int, vy as int);
            assert(self@ =~= before.with_flag(false));
        }
        let mut row: usize = 0;
        while row < height
            invariant
                row <= height < 16,
                height > 0 ==> start + height <= 4096,
                vx < 256,
                vy < 256,
                before.wf(),
                before.index == start,
                rows == before.sprite_rows(height as int),
                self@ == (Machine {
                    frame: frame_in_progress(before.frame, rows, vx as int, vy as int, row as int, 0),
                    ..before.with_flag(
                        collision_in_progress(
                            before.frame,
                            rows,
                            vx as int,
                            vy as int,
                            row as int,
                            0,
                        ),
                    )
                }),
                self@.wf(),
                self.generator() == old(self).generator(),
            decreases height - row,
        {
            let byte = self.memory[start + row];
            let mut col: u8 = 0;
            while col < 8
                invariant
                    col <= 8,
                    row < height < 16,
                    before.wf(),
                    rows.len() == height,
                    byte == rows[row as int],
                    vx < 256,
                    vy < 256,
                    self@ == (Machine {
                        frame: frame_in_progress(
                            before.frame,
                            rows,
                            vx as int,
                            vy as int,
                            row as int,
                            col as int,
                        ),
                        ..before.with_flag(
                            collision_in_progress(
                                before.frame,
                                rows,
                                vx as int,
                                vy as int,
                                row as int,
                                col as int,
                            ),
                        )
                    }),
                    self@.wf(),
                    self.generator() == old(self).generator(),
                decreases 8 - col,
            {
                let bit = (byte >> (7 - col)) & 1;
                proof {
                    let shift = (7 - col) as u8;
                    assert((byte >> shift) & 1 <= 1) by (bit_vector);
                    assert((bit == 1) == sprite_bit(byte, col as int));
                    lemma_draw_advances(
                        before.frame,
                        rows,
                        vx as int,
                        vy as int,
                        row as int,
                        col as int,
                    );
                }
                if self.xor_pixel(vx + col as usize, vy + row, bit) {
                    self.reg[FLAG_REGISTER] = 1;
                }
                col += 1;
            }
            proof {
                lemma_draw_row_ends(before.frame, rows, vx as int, vy as int, row as int);
            }
            row += 1;
        }
        proof {
            lemma_draw_ends(before.frame, rows, vx as int, vy as int);
        }
        Ok(())
    }
}

} // verus!
