//! Instructions that compute on registers: loads, the arithmetic and logic
//! family, the index register and the random byte.

use vstd::prelude::*;
use crate::decode::{get_kk, get_n, get_nnn, get_x, get_y};
use crate::engine::Chip8;
use crate::error::Chip8Error;
use crate::layout::FLAG_REGISTER;
use crate::machine::{reported, settled};
use crate::rng::next_byte;

verus! {

impl Chip8 {
    /// 6XKK: VX becomes KK.
    pub fn set_reg(&mut self, opcode: u16)
        requires
            old(self)@.wf(),
        ensures
            final(self)@ == old(self)@.set_reg(opcode),
            final(self)@.wf(),
            final(self).generator() == old(self).generator(),
    {
        self.reg[get_x(opcode)] = get_kk(opcode);
        assert(self@ =~= old(self)@.set_reg(opcode));
    }

    /// 7XKK: VX becomes VX + KK modulo 256. No flag is touched.
    pub fn add_reg(&mut self, opcode: u16)
        requires
            old(self)@.wf(),
        ensures
            final(self)@ == old(self)@.add_reg(opcode),
            final(self)@.wf(),
            final(self).generator() == old(self).generator(),
    {
        let x = get_x(opcode);
        self.reg[x] = self.reg[x].wrapping_add(get_kk(opcode));
        assert(self@ =~= old(self)@.add_reg(opcode));
    }

    /// Writes `value` to VX and then the flag to VF, so that the flag stands
    /// where X names VF itself.
    fn set_result_and_flag(&mut self, x: usize, value: u8, flag: bool)
        requires
            old(self)@.wf(),
            x < 16,
        ensures
            final(self)@ == old(self)@.with_register(x as int, value).with_flag(flag),
            final(self)@.wf(),
            final(self).generator() == old(self).generator(),
    {
        self.reg[x] = value;
        self.reg[FLAG_REGISTER] = if flag {
            1
        } else {
            0
        };
        assert(self@ =~= old(self)@.with_register(x as int, value).with_flag(flag));
    }

    /// 8XY4: VX becomes VX + VY modulo 256, then VF the carry.
    fn add_registers(&mut self, x: usize, y: usize)
        requires
            old(self)@.wf(),
            x < 16,
            y < 16,
        ensures
            final(self)@ == old(self)@.add_registers(x as int, y as int),
            final(self)@.wf(),
            final(self).generator() == old(self).generator(),
    {
        let vx = self.reg[x];
        let vy = self.reg[y];
        let carry = vx as u16 + vy as u16 > 0xFF;
        self.set_result_and_flag(x, vx.wrapping_add(vy), carry);
    }

    /// 8XY5 and 8XY7: VX becomes `minuend - subtrahend` modulo 256, then VF
    /// is 1 where nothing was borrowed.
    fn subtract(&mut self, x: usize, minuend: u8, subtrahend: u8)
        requires
            old(self)@.wf(),
            x < 16,
        ensures
            final(self)@ == old(self)@.subtract(x as int, minuend, subtrahend),
            final(self)@.wf(),
            final(self).generator() == old(self).generator(),
    {
        self.set_result_and_flag(x, minuend.wrapping_sub(subtrahend), minuend >= subtrahend);
    }

    /// 8XY6: VX is shifted right by one bit, then VF becomes the bit that
    /// left.
    fn shift_right(&mut self, x: usize)
        requires
            old(self)@.wf(),
            x < 16,
        ensures
            final(self)@ == old(self)@.shift_right(x as int),
            final(self)@.wf(),
            final(self).generator() == old(self).generator(),
    {
        let vx = self.reg[x];
        assert(vx >> 1 == vx / 2 && (vx & 1 == 1) == (vx % 2 == 1)) by (bit_vector);
        self.set_result_and_flag(x, vx >> 1, vx & 1 == 1);
    }

    /// 8XYE: VX is shifted left by one bit, then VF becomes the bit that
    /// left.
    fn shift_left(&mut self, x: usize)
        requires
            old(self)@.wf(),
            x < 16,
        ensures
            final(self)@ == old(self)@.shift_left(x as int),
            final(self)@.wf(),
            final(self).generator() == old(self).generator(),
    {
        let vx = self.reg[x];
        assert(vx << 1 == (vx * 2) % 256 && (vx >> 7 == 1) == (vx >= 128)) by (bit_vector);
        self.set_result_and_flag(x, vx << 1, vx >> 7 == 1);
    }

    /// Family 8: the operations on VX and VY, chosen by the last nibble.
    ///
    /// Assignment, OR, AND and XOR touch no flag. Addition, the two
    /// subtractions and the two shifts read their operands first, write the
    /// result to VX, and write their flag to VF last. Any other last nibble
    /// is refused.
    pub fn reg_ops(&mut self, opcode: u16) -> (result: Result<(), Chip8Error>)
        requires
            old(self)@.wf(),
        ensures
            final(self)@ == settled(old(self)@, old(self)@.reg_ops(opcode)),
            result == reported(old(self)@.reg_ops(opcode), ()),
            final(self)@.wf(),
            final(self).generator() == old(self).generator(),
    {
        let x = get_x(opcode);
        let y = get_y(opcode);
        let vx = self.reg[x];
        let vy = self.reg[y];
        let op = get_n(opcode);
        if op == 0x0 {
            self.set_register(x, vy);
        } else if op == 0x1 {
            self.set_register(x, vx | vy);
        } else if op == 0x2 {
            self.set_register(x, vx & vy);
        } else if op == 0x3 {
            self.set_register(x, vx ^ vy);
        } else if op == 0x4 {
            self.add_registers(x, y);
        } else if op == 0x5 {
            self.subtract(x, vx, vy);
        } else if op == 0x6 {
            self.shift_right(x);
        } else if op == 0x7 {
            self.subtract(x, vy, vx);
        } else if op == 0xE {
            self.shift_left(x);
        } else {
            return Err(Chip8Error::InvalidOpcode(opcode));
        }
        Ok(())
    }

    /// ANNN: the index register becomes NNN.
    pub fn set_index(&mut self, opcode: u16)
        requires
            old(self)@.wf(),
        ensures
            final(self)@ == old(self)@.set_index(opcode),
            final(self)@.wf(),
            final(self).generator() == old(self).generator(),
    {
        self.index_reg = get_nnn(opcode);
    }

    /// CXKK with the random byte given: VX becomes `random` masked by KK.
    pub fn set_random(&mut self, opcode: u16, random: u8)
        requires
            old(self)@.wf(),
        ensures
            final(self)@ == old(self)@.set_random(opcode, random),
            final(self)@.wf(),
            final(self).generator() == old(self).generator(),
    {
        self.reg[get_x(opcode)] = random & get_kk(opcode);
        assert(self@ =~= old(self)@.set_random(opcode, random));
    }

    /// CXKK: VX becomes the next byte of the random generator, masked by KK.
    /// Whatever byte is drawn, the machine is as `set_random` leaves it.
    pub fn rand(&mut self, opcode: u16)
        requires
            old(self)@.wf(),
        ensures
            exists|random: u8| final(self)@ == #[trigger] old(self)@.set_random(opcode, random),
            final(self)@.wf(),
    {
        let random = next_byte(&mut self.rand_rng);
        self.set_random(opcode, random);
    }
}

} // verus!
