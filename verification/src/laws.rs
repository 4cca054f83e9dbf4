//! What holds of the instruction set as a whole.
//!
//! Each function below is a theorem about [`Machine::execute`] or
//! [`Machine::tick`], proved for every well-formed machine. The executable
//! engine follows the same functions, so each theorem holds of it as well.

use vstd::prelude::*;
use crate::decode::{family_of, kk_of, n_of, nnn_of, x_of, y_of};
use crate::display::{
    cell_of, draw_collides, draw_lights, flipped, frame_after_draw, lemma_cell_of_sprite_pixel,
    sprite_bit, sprite_column, sprite_hits, sprite_row,
};
use crate::error::Chip8Error;
use crate::machine::Machine;

verus! {

/// Add-immediate (7XKK) leaves the old value plus KK, modulo 256, in
/// register X, and touches no other register.
pub proof fn add_immediate_wraps(m: Machine, opcode: u16, random: u8)
    requires
        m.wf(),
        family_of(opcode) == 0x7,
    ensures
        m.execute(opcode, random).is_ok(),
        ({
            let next = m.execute(opcode, random).unwrap();
            let x = x_of(opcode);
            &&& next.registers[x] == (m.registers[x] + kk_of(opcode)) % 256
            &&& forall|i: int| 0 <= i < 16 && i != x ==> next.registers[i] == m.registers[i]
        }),
{
}

/// Addition (8XY4) sets the flag register to 1 if and only if the sum of the
/// two operands is 256 or more, and to 0 otherwise. Unless X names the flag
/// register itself, register X receives the sum modulo 256.
pub proof fn addition_carries(m: Machine, opcode: u16, random: u8)
    requires
        m.wf(),
        family_of(opcode) == 0x8,
        n_of(opcode) == 0x4,
    ensures
        m.execute(opcode, random).is_ok(),
        ({
            let next = m.execute(opcode, random).unwrap();
            let sum = m.registers[x_of(opcode)] + m.registers[y_of(opcode)];
            &&& next.registers[15] == 1 <==> sum >= 256
            &&& next.registers[15] == 0 <==> sum < 256
            &&& x_of(opcode) != 15 ==> next.registers[x_of(opcode)] == sum % 256
        }),
{
}

/// The minuend of a subtraction: VX for 8XY5, VY for 8XY7.
pub open spec fn minuend_of(m: Machine, opcode: u16) -> u8 {
    if n_of(opcode) == 0x5 {
        m.registers[x_of(opcode)]
    } else {
        m.registers[y_of(opcode)]
    }
}

/// The subtrahend of a subtraction: VY for 8XY5, VX for 8XY7.
pub open spec fn subtrahend_of(m: Machine, opcode: u16) -> u8 {
    if n_of(opcode) == 0x5 {
        m.registers[y_of(opcode)]
    } else {
        m.registers[x_of(opcode)]
    }
}

/// Subtraction (8XY5 and 8XY7) sets the flag register to 1 if and only if
/// the minuend is at least the subtrahend, and to 0 otherwise. Unless X
/// names the flag register itself, register X receives the difference
/// modulo 256.
pub proof fn subtraction_borrows(m: Machine, opcode: u16, random: u8)
    requires
        m.wf(),
        family_of(opcode) == 0x8,
        n_of(opcode) == 0x5 || n_of(opcode) == 0x7,
    ensures
        m.execute(opcode, random).is_ok(),
        ({
            let next = m.execute(opcode, random).unwrap();
            let minuend = minuend_of(m, opcode);
            let subtrahend = subtrahend_of(m, opcode);
            &&& next.registers[15] == 1 <==> minuend >= subtrahend
            &&& next.registers[15] == 0 <==> minuend < subtrahend
            &&& x_of(opcode) != 15 ==> next.registers[x_of(opcode)] == (minuend - subtrahend) % 256
        }),
{
}

/// Shift right (8XY6) sets the flag register to the least significant bit
/// that VX had before the shift. Unless X names the flag register itself,
/// register X receives half its old value.
pub proof fn shift_right_keeps_the_lowest_bit(m: Machine, opcode: u16, random: u8)
    requires
        m.wf(),
        family_of(opcode) == 0x8,
        n_of(opcode) == 0x6,
    ensures
        m.execute(opcode, random).is_ok(),
        ({
            let next = m.execute(opcode, random).unwrap();
            let value = m.registers[x_of(opcode)];
            &&& next.registers[15] == value % 2
            &&& x_of(opcode) != 15 ==> next.registers[x_of(opcode)] == value / 2
        }),
{
}

/// Shift left (8XYE) sets the flag register to the most significant bit
/// that VX had before the shift. Unless X names the flag register itself,
/// register X receives twice its old value, modulo 256.
pub proof fn shift_left_keeps_the_highest_bit(m: Machine, opcode: u16, random: u8)
    requires
        m.wf(),
        family_of(opcode) == 0x8,
        n_of(opcode) == 0xE,
    ensures
        m.execute(opcode, random).is_ok(),
        ({
            let next = m.execute(opcode, random).unwrap();
            let value = m.registers[x_of(opcode)];
            &&& next.registers[15] == value / 128
            &&& x_of(opcode) != 15 ==> next.registers[x_of(opcode)] == (value * 2) % 256
        }),
{
}

/// Clear display (00E0) leaves every cell of the display 0, whatever it held
/// before.
pub proof fn clear_display_clears_every_cell(m: Machine, random: u8)
    requires
        m.wf(),
    ensures
        m.execute(0x00E0, random).is_ok(),
        forall|p: int| 0 <= p < 2048 ==> m.execute(0x00E0, random).unwrap().frame[p] == 0,
{
}

/// Drawing read pixel by pixel: the pixel in row `row` and column `col` of
/// the sprite lands on the cell `(vx + col, vy + row)`, wrapped onto the
/// display, and is combined with it by exclusive or.
pub proof fn drawing_combines_each_pixel_by_exclusive_or(
    frame: Seq<u8>,
    rows: Seq<u8>,
    vx: int,
    vy: int,
    row: int,
    col: int,
)
    requires
        frame.len() == 2048,
        rows.len() <= 32,
        0 <= row < rows.len(),
        0 <= col < 8,
    ensures
        ({
            let p = cell_of(vx + col, vy + row);
            let drawn = frame_after_draw(frame, rows, vx, vy);
            &&& 0 <= p < 2048
            &&& sprite_bit(rows[row], col) ==> drawn[p] == flipped(frame[p])
            &&& !sprite_bit(rows[row], col) ==> drawn[p] == frame[p]
        }),
{
    lemma_cell_of_sprite_pixel(vx, vy, row, col);
}

/// Drawing leaves every cell alone on which no pixel of the sprite lands.
pub proof fn drawing_leaves_other_cells_alone(
    frame: Seq<u8>,
    rows: Seq<u8>,
    vx: int,
    vy: int,
    p: int,
)
    requires
        0 <= p < frame.len(),
        !(sprite_row(p, vy) < rows.len() && sprite_column(p, vx) < 8),
    ensures
        frame_after_draw(frame, rows, vx, vy)[p] == frame[p],
{
}

/// Whether the sprite that `opcode` draws on `m` sets a pixel that is clear.
pub open spec fn lights_a_pixel(m: Machine, opcode: u16) -> bool {
    draw_lights(
        m.frame,
        m.sprite_rows(n_of(opcode)),
        m.registers[x_of(opcode)] as int,
        m.registers[y_of(opcode)] as int,
    )
}

/// Whether every set bit of the sprite that `opcode` draws on `m` lands on a
/// clear cell.
pub open spec fn lands_on_clear_cells(m: Machine, opcode: u16) -> bool {
    forall|p: int|
        0 <= p < 2048 && #[trigger] sprite_hits(
            m.sprite_rows(n_of(opcode)),
            m.registers[x_of(opcode)] as int,
            m.registers[y_of(opcode)] as int,
            p,
        ) ==> m.frame[p] == 0
}

/// Whether the registers that hold the anchor of the sprite that `opcode`
/// draws hold the same values in `first` and in `second`.
pub open spec fn same_anchor(first: Machine, second: Machine, opcode: u16) -> bool {
    &&& first.registers[x_of(opcode)] == second.registers[x_of(opcode)]
    &&& first.registers[y_of(opcode)] == second.registers[y_of(opcode)]
}

/// Drawing one sprite twice at one anchor (DXYN, twice) restores the
/// display: every pixel that the first draw flipped, the second flips back.
///
/// "At one anchor" means that VX and VY hold after the first draw what they
/// held before it, which is so unless one of them is the flag register and
/// the first draw changed it. The second draw sets the flag register to 1 if
/// and only if the first draw had set a pixel that was clear, and to 0
/// otherwise.
pub proof fn drawing_twice_restores_the_display(m: Machine, opcode: u16, random: u8)
    requires
        m.wf(),
        family_of(opcode) == 0xD,
        m.execute(opcode, random).is_ok(),
        same_anchor(m, m.execute(opcode, random).unwrap(), opcode),
    ensures
        m.execute(opcode, random).unwrap().execute(opcode, random).is_ok(),
        ({
            let twice = m.execute(opcode, random).unwrap().execute(opcode, random).unwrap();
            &&& twice.frame == m.frame
            &&& twice.registers[15] == 1 <==> lights_a_pixel(m, opcode)
            &&& twice.registers[15] == 0 <==> !lights_a_pixel(m, opcode)
        }),
{
    let rows = m.sprite_rows(n_of(opcode));
    let vx = m.registers[x_of(opcode)] as int;
    let vy = m.registers[y_of(opcode)] as int;
    let once = m.execute(opcode, random).unwrap();
    assert(once.sprite_rows(n_of(opcode)) =~= rows);
    let twice = once.execute(opcode, random).unwrap();
    assert(twice.frame =~= m.frame);
    if draw_lights(m.frame, rows, vx, vy) {
        let p = choose|p: int|
            0 <= p < m.frame.len() && m.frame[p] == 0 && #[trigger] sprite_hits(rows, vx, vy, p);
        assert(once.frame[p] == 1);
        assert(draw_collides(once.frame, rows, vx, vy));
    }
    if draw_collides(once.frame, rows, vx, vy) {
        let p = choose|p: int|
            0 <= p < once.frame.len() && once.frame[p] == 1 && #[trigger] sprite_hits(
                rows,
                vx,
                vy,
                p,
            );
        assert(m.frame[p] == 0);
        assert(draw_lights(m.frame, rows, vx, vy));
    }
}

/// Drawing a sprite whose set bits all land on clear cells never sets the
/// flag register: it is 0 afterwards. A sprite drawn onto a region that is
/// clear altogether is the plainest case.
pub proof fn drawing_on_clear_cells_never_collides(m: Machine, opcode: u16, random: u8)
    requires
        m.wf(),
        family_of(opcode) == 0xD,
        lands_on_clear_cells(m, opcode),
    ensures
        m.execute(opcode, random).is_ok() ==> m.execute(opcode, random).unwrap().registers[15]
            == 0,
{
}

/// A return (00EE) right after a call (2NNN) undoes the call: the machine is
/// again as it was before the call, program counter and stack included. The
/// call must find room on the stack.
pub proof fn return_undoes_call(m: Machine, opcode: u16, random: u8)
    requires
        m.wf(),
        family_of(opcode) == 0x2,
        m.stack.len() < m.stack_limit,
    ensures
        m.execute(opcode, random).is_ok(),
        ({
            let called = m.execute(opcode, random).unwrap();
            &&& called.pc == nnn_of(opcode)
            &&& called.stack.len() == m.stack.len() + 1
            &&& called.execute(0x00EE, random) == Ok::<Machine, Chip8Error>(m)
        }),
{
    let called = m.execute(opcode, random).unwrap();
    assert(called.stack.drop_last() =~= m.stack);
}

/// A tick that executes a call, followed by a tick that executes a return,
/// leaves the program counter at the address right after the call
/// instruction and the stack as it was before the call.
pub proof fn call_then_return_resumes_after_the_call(m: Machine, first: u8, second: u8)
    requires
        m.wf(),
        m.waiting.is_none(),
        m.pc + 1 < 4096,
        family_of(m.fetched()) == 0x2,
        m.stack.len() < m.stack_limit,
        nnn_of(m.fetched()) + 1 < 4096,
        m.memory[nnn_of(m.fetched()) as int] == 0x00,
        m.memory[nnn_of(m.fetched()) + 1] == 0xEE,
    ensures
        m.tick(first).pc == nnn_of(m.fetched()),
        m.tick(first).stack == m.stack.push((m.pc + 2) as u16),
        m.tick(first).tick(second).pc == m.pc + 2,
        m.tick(first).tick(second).stack == m.stack,
{
    let called = m.tick(first);
    assert(called.fetched() == 0x00EE);
    assert(called.advanced().stack.drop_last() =~= m.stack);
}

/// The three bytes that FX33 writes are the decimal digits of VX: each is at
/// most 9, and hundreds, tens and ones add up to VX again.
pub proof fn decimal_digits_recombine(m: Machine, opcode: u16, random: u8)
    requires
        m.wf(),
        family_of(opcode) == 0xF,
        kk_of(opcode) == 0x33,
        m.index + 2 < 4096,
    ensures
        m.execute(opcode, random).is_ok(),
        ({
            let memory = m.execute(opcode, random).unwrap().memory;
            let at = m.index as int;
            &&& memory[at] <= 9 && memory[at + 1] <= 9 && memory[at + 2] <= 9
            &&& 100 * memory[at] + 10 * memory[at + 1] + memory[at + 2] == m.registers[x_of(
                opcode,
            )]
        }),
{
    let value = m.registers[x_of(opcode)];
    let at = m.index as int;
    let next = m.store_decimal(x_of(opcode)).unwrap();
    assert(m.execute(opcode, random) == Ok::<Machine, Chip8Error>(next));
    assert(next.memory[at] == value / 100);
    assert(next.memory[at + 1] == (value / 10) % 10);
    assert(next.memory[at + 2] == value % 10);
    lemma_decimal_digits(value);
}

/// Hundreds, tens and ones of a byte are digits and add up to the byte.
proof fn lemma_decimal_digits(value: u8)
    ensures
        value / 100 <= 9,
        (value / 10) % 10 <= 9,
        value % 10 <= 9,
        100 * (value / 100) + 10 * ((value / 10) % 10) + value % 10 == value,
{
}

/// The machine in which a load begins after a store: the index register is
/// back where the store began, and the registers hold `between`.
pub open spec fn rewound(m: Machine, stored: Machine, between: Seq<u8>) -> Machine {
    Machine { index: m.index, registers: between, ..stored }
}

/// Storing V0 to VX (FX55) and loading them again (FX65) from the same
/// place gives every one of them its old value back, whatever the registers
/// held in between; and each of the two instructions moves the index
/// register on by exactly X + 1.
///
/// Between the two the index register is put back to where the store began,
/// since the store has moved it on. `between` is what the registers hold
/// when the load begins.
pub proof fn store_then_load_round_trips(
    m: Machine,
    store: u16,
    load: u16,
    between: Seq<u8>,
    random: u8,
)
    requires
        m.wf(),
        family_of(store) == 0xF,
        kk_of(store) == 0x55,
        family_of(load) == 0xF,
        kk_of(load) == 0x65,
        x_of(store) == x_of(load),
        m.index + x_of(store) < 4096,
        between.len() == 16,
    ensures
        m.execute(store, random).is_ok(),
        rewound(m, m.execute(store, random).unwrap(), between).execute(load, random).is_ok(),
        ({
            let x = x_of(store);
            let stored = m.execute(store, random).unwrap();
            let loaded = rewound(m, stored, between).execute(load, random).unwrap();
            &&& stored.index == m.index + x + 1
            &&& stored.registers == m.registers
            &&& loaded.index == m.index + x + 1
            &&& forall|i: int| 0 <= i <= x ==> loaded.registers[i] == m.registers[i]
        }),
{
}

/// No instruction and no tick changes the state of a key: only the host
/// does, through `set_key`.
pub proof fn instructions_leave_the_keys_alone(m: Machine, opcode: u16, random: u8)
    requires
        m.wf(),
    ensures
        m.execute(opcode, random).is_ok() ==> m.execute(opcode, random).unwrap().keys == m.keys,
        m.tick(random).keys == m.keys,
{
}

/// While the machine waits for a key, a tick executes nothing: it counts the
/// timers down and leaves everything else as it is.
pub proof fn waiting_machine_only_counts_down(m: Machine, random: u8)
    requires
        m.wf(),
        m.waiting.is_some(),
    ensures
        m.tick(random) == m.count_down(),
        m.tick(random).pc == m.pc,
        m.tick(random).waiting == m.waiting,
{
}

/// A key press ends the wait and hands the key to the register that waited.
pub proof fn key_press_ends_the_wait(m: Machine, key: int)
    requires
        m.wf(),
        m.waiting.is_some(),
        0 <= key < 16,
    ensures
        m.set_key(key, true).waiting.is_none(),
        m.set_key(key, true).registers[m.waiting.unwrap() as int] == key,
        m.set_key(key, true).wf(),
{
}

/// Counting down takes each timer down by one, and never below 0.
pub proof fn timers_count_down_to_zero(m: Machine)
    requires
        m.wf(),
    ensures
        m.count_down().delay == if m.delay == 0 {
            0
        } else {
            m.delay - 1
        },
        m.count_down().sound == if m.sound == 0 {
            0
        } else {
            m.sound - 1
        },
{
}

} // verus!
