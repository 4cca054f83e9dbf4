//! Instructions that move the program counter: clear-or-return, jumps, calls
//! and skips.

use vstd::prelude::*;
use crate::decode::{get_kk, get_nnn, get_x, get_y};
use crate::engine::Chip8;
use crate::error::Chip8Error;
use crate::layout::FRAME_SIZE;
use crate::machine::{reported, settled};

verus! {

impl Chip8 {
    /// Family 0: clears the display (00E0) or returns from a call (00EE).
    /// Any other word is refused.
    pub fn sys_addr(&mut self, opcode: u16) -> (result: Result<(), Chip8Error>)
        requires
            old(self)@.wf(),
        ensures
            final(self)@ == settled(old(self)@, old(self)@.sys_addr(opcode)),
            result == reported(old(self)@.sys_addr(opcode), ()),
            final(self)@.wf(),
            final(self).generator() == old(self).generator(),
    {
        if opcode == 0x00E0 {
            self.frame_buffer = [0u8; FRAME_SIZE];
            assert(self@.frame =~= old(self)@.clear_display().frame);
            Ok(())
        } else if opcode == 0x00EE {
            match self.stack.pop() {
                Some(address) => {
                    self.program_counter = address;
                    Ok(())
                },
                None => Err(Chip8Error::StackUnderflow),
            }
        } else {
            Err(Chip8Error::InvalidOpcode(opcode))
        }
    }

    /// 1NNN: jumps to NNN.
    pub fn jp_addr(&mut self, opcode: u16)
        requires
            old(self)@.wf(),
        ensures
            final(self)@ == old(self)@.jp_addr(opcode),
            final(self)@.wf(),
            final(self).generator() == old(self).generator(),
    {
        self.program_counter = get_nnn(opcode);
    }

    /// 2NNN: calls NNN. The program counter, which is already past the call,
    /// goes on the stack. A full stack refuses the call.
    pub fn call_addr(&mut self, opcode: u16) -> (result: Result<(), Chip8Error>)
        requires
            old(self)@.wf(),
        ensures
            final(self)@ == settled(old(self)@, old(self)@.call_addr(opcode)),
            result == reported(old(self)@.call_addr(opcode), ()),
            final(self)@.wf(),
            final(self).generator() == old(self).generator(),
    {
        if self.stack.len() >= self.stack_limit {
            return Err(Chip8Error::StackOverflow);
        }
        self.stack.push(self.program_counter);
        self.program_counter = get_nnn(opcode);
        Ok(())
    }

    /// Moves the program counter past the next instruction where `condition`
    /// holds.
    fn skip_if(&mut self, condition: bool) -> (result: Result<(), Chip8Error>)
        requires
            old(self)@.wf(),
        ensures
            final(self)@ == settled(old(self)@, old(self)@.skip_if(condition)),
            result == reported(old(self)@.skip_if(condition), ()),
            final(self)@.wf(),
            final(self).generator() == old(self).generator(),
    {
        if !condition {
            Ok(())
        } else if self.program_counter > 0xFFFD {
            Err(Chip8Error::MemoryOutOfBounds)
        } else {
            self.program_counter = self.program_counter + 2;
            Ok(())
        }
    }

    /// 3XKK: skips the next instruction where VX equals KK.
    pub fn skip_if_equal(&mut self, opcode: u16) -> (result: Result<(), Chip8Error>)
        requires
            old(self)@.wf(),
        ensures
            final(self)@ == settled(old(self)@, old(self)@.skip_if_equal(opcode)),
            result == reported(old(self)@.skip_if_equal(opcode), ()),
            final(self)@.wf(),
            final(self).generator() == old(self).generator(),
    {
        let condition = self.reg[get_x(opcode)] == get_kk(opcode);
        self.skip_if(condition)
    }

    /// 4XKK: skips the next instruction where VX differs from KK.
    pub fn skip_if_not_equal(&mut self, opcode: u16) -> (result: Result<(), Chip8Error>)
        requires
            old(self)@.wf(),
        ensures
            final(self)@ == settled(old(self)@, old(self)@.skip_if_not_equal(opcode)),
            result == reported(old(self)@.skip_if_not_equal(opcode), ()),
            final(self)@.wf(),
            final(self).generator() == old(self).generator(),
    {
        let condition = self.reg[get_x(opcode)] != get_kk(opcode);
        self.skip_if(condition)
    }

    /// 5XY_: skips the next instruction where VX equals VY.
    pub fn skip_if_reg_equal(&mut self, opcode: u16) -> (result: Result<(), Chip8Error>)
        requires
            old(self)@.wf(),
        ensures
            final(self)@ == settled(old(self)@, old(self)@.skip_if_reg_equal(opcode)),
            result == reported(old(self)@.skip_if_reg_equal(opcode), ()),
            final(self)@.wf(),
            final(self).generator() == old(self).generator(),
    {
        let condition = self.reg[get_x(opcode)] == self.reg[get_y(opcode)];
        self.skip_if(condition)
    }

    /// 9XY_: skips the next instruction where VX differs from VY.
    pub fn skip_if_reg_not_equal(&mut self, opcode: u16) -> (result: Result<(), Chip8Error>)
        requires
            old(self)@.wf(),
        ensures
            final(self)@ == settled(old(self)@, old(self)@.skip_if_reg_not_equal(opcode)),
            result == reported(old(self)@.skip_if_reg_not_equal(opcode), ()),
            final(self)@.wf(),
            final(self).generator() == old(self).generator(),
    {
        let condition = self.reg[get_x(opcode)] != self.reg[get_y(opcode)];
        self.skip_if(condition)
    }

    /// Family E: skips the next instruction where the key named by VX is
    /// down (EX9E), or where it is not (EXA1). A value of VX above 15 names
    /// no key, and no key is never down. Any other word is refused.
    pub fn skip_if_key_state(&mut self, opcode: u16) -> (result: Result<(), Chip8Error>)
        requires
            old(self)@.wf(),
        ensures
            final(self)@ == settled(old(self)@, old(self)@.skip_if_key_state(opcode)),
            result == reported(old(self)@.skip_if_key_state(opcode), ()),
            final(self)@.wf(),
            final(self).generator() == old(self).generator(),
    {
        let key = self.reg[get_x(opcode)] as usize;
        let down = key < 16 && self.keys[key];
        let op = get_kk(opcode);
        if op == 0x9E {
            self.skip_if(down)
        } else if op == 0xA1 {
            self.skip_if(!down)
        } else {
            Err(Chip8Error::InvalidOpcode(opcode))
        }
    }

    /// BNNN: jumps to NNN plus the value of V0.
    pub fn jp_offset(&mut self, opcode: u16)
        requires
            old(self)@.wf(),
        ensures
            final(self)@ == old(self)@.jp_offset(opcode),
            final(self)@.wf(),
            final(self).generator() == old(self).generator(),
    {
        self.program_counter = get_nnn(opcode) + self.reg[0] as u16;
    }
}

} // verus!
