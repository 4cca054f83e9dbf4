//! Family F: timers, the key-wait, arithmetic on the index register, and
//! transfers between registers and memory.

use vstd::prelude::*;
use crate::decode::{get_kk, get_x};
use crate::engine::Chip8;
use crate::error::Chip8Error;
use crate::layout::{FONT_START, GLYPH_SIZE, MEMORY_SIZE};
use crate::machine::{reported, settled, Machine};

verus! {

impl Chip8 {
    /// FX1E: the index register grows by VX. A sum beyond 16 bits is
    /// refused.
    fn add_to_index(&mut self, x: usize) -> (result: Result<(), Chip8Error>)
        requires
            old(self)@.wf(),
            x < 16,
        ensures
            final(self)@ == settled(old(self)@, old(self)@.add_to_index(x as int)),
            result == reported(old(self)@.add_to_index(x as int), ()),
            final(self)@.wf(),
            final(self).generator() == old(self).generator(),
    {
        match self.index_reg.checked_add(self.reg[x] as u16) {
            Some(sum) => {
                self.index_reg = sum;
                Ok(())
            },
            None => Err(Chip8Error::MemoryOutOfBounds),
        }
    }

    /// FX29: the index register becomes the address of the glyph for the
    /// value of VX.
    fn point_at_glyph(&mut self, x: usize)
        requires
            old(self)@.wf(),
            x < 16,
        ensures
            final(self)@ == old(self)@.point_at_glyph(x as int),
            final(self)@.wf(),
            final(self).generator() == old(self).generator(),
    {
        let address = FONT_START + self.reg[x] as usize * GLYPH_SIZE;
        self.index_reg = address as u16;
    }

    /// FX33: the hundreds, tens and ones of VX go to memory at I, I + 1 and
    /// I + 2. Where one of the three lies outside memory, nothing is
    /// written.
    fn store_decimal(&mut self, x: usize) -> (result: Result<(), Chip8Error>)
        requires
            old(self)@.wf(),
            x < 16,
        ensures
            final(self)@ == settled(old(self)@, old(self)@.store_decimal(x as int)),
            result == reported(old(self)@.store_decimal(x as int), ()),
            final(self)@.wf(),
            final(self).generator() == old(self).generator(),
    {
        let at = self.index_reg as usize;
        if at + 2 >= MEMORY_SIZE {
            return Err(Chip8Error::MemoryOutOfBounds);
        }
        let value = self.reg[x];
        self.memory[at] = value / 100;
        self.memory[at + 1] = (value / 10) % 10;
        self.memory[at + 2] = value % 10;
        assert(self@.memory =~= old(self)@.store_decimal(x as int).unwrap().memory);
        Ok(())
    }

    /// FX55: V0 to VX go to memory from I on, and I moves past them. Where
    /// one of the bytes lies outside memory, nothing is written.
    fn store_registers(&mut self, x: usize) -> (result: Result<(), Chip8Error>)
        requires
            old(self)@.wf(),
            x < 16,
        ensures
            final(self)@ == settled(old(self)@, old(self)@.store_registers(x as int)),
            result == reported(old(self)@.store_registers(x as int), ()),
            final(self)@.wf(),
            final(self).generator() == old(self).generator(),
    {
        let at = self.index_reg as usize;
        if at + x >= MEMORY_SIZE {
            return Err(Chip8Error::MemoryOutOfBounds);
        }
        let mut i: usize = 0;
        while i <= x
            invariant
                i <= x + 1,
                x < 16,
                at + x < 4096,
                self@ == (Machine { memory: self@.memory, ..old(self)@ }),
                self.generator() == old(self).generator(),
                self@.memory.len() == 4096,
                forall|a: int|
                    0 <= a < 4096 ==> self@.memory[a] == if at <= a < at + i {
                        old(self)@.registers[a - at]
                    } else {
                        old(self)@.memory[a]
                    },
            decreases x + 1 - i,
        {
            self.memory[at + i] = self.reg[i];
            i += 1;
        }
        self.index_reg = (at + x + 1) as u16;
        assert(self@.memory =~= old(self)@.store_registers(x as int).unwrap().memory);
        Ok(())
    }

    /// FX65: V0 to VX are read from memory from I on, and I moves past
    /// them. Where one of the bytes lies outside memory, nothing is read.
    fn load_registers(&mut self, x: usize) -> (result: Result<(), Chip8Error>)
        requires
            old(self)@.wf(),
            x < 16,
        ensures
            final(self)@ == settled(old(self)@, old(self)@.load_registers(x as int)),
            result == reported(old(self)@.load_registers(x as int), ()),
            final(self)@.wf(),
            final(self).generator() == old(self).generator(),
    {
        let at = self.index_reg as usize;
        if at + x >= MEMORY_SIZE {
            return Err(Chip8Error::MemoryOutOfBounds);
        }
        let mut i: usize = 0;
        while i <= x
            invariant
                i <= x + 1,
                x < 16,
                at + x < 4096,
                self@ == (Machine { registers: self@.registers, ..old(self)@ }),
                self.generator() == old(self).generator(),
                self@.registers.len() == 16,
                forall|r: int|
                    0 <= r < 16 ==> self@.registers[r] == if r < i {
                        old(self)@.memory[at + r]
                    } else {
                        old(self)@.registers[r]
                    },
            decreases x + 1 - i,
        {
            self.reg[i] = self.memory[at + i];
            i += 1;
        }
        self.index_reg = (at + x + 1) as u16;
        assert(self@.registers =~= old(self)@.load_registers(x as int).unwrap().registers);
        Ok(())
    }

    /// Family F, chosen by the low byte:
    ///
    /// - FX07: VX becomes the delay timer.
    /// - FX0A: the machine waits for a key press, to be stored in VX.
    /// - FX15: the delay timer becomes VX.
    /// - FX18: the sound timer becomes VX.
    /// - FX1E: the index register grows by VX.
    /// - FX29: the index register points at the glyph for VX.
    /// - FX33: the decimal digits of VX go to memory at I.
    /// - FX55: V0 to VX go to memory at I.
    /// - FX65: V0 to VX are read from memory at I.
    ///
    /// Any other low byte is refused.
    pub fn misc(&mut self, opcode: u16) -> (result: Result<(), Chip8Error>)
        requires
            old(self)@.wf(),
        ensures
            final(self)@ == settled(old(self)@, old(self)@.misc(opcode)),
            result == reported(old(self)@.misc(opcode), ()),
            final(self)@.wf(),
            final(self).generator() == old(self).generator(),
    {
        let x = get_x(opcode);
        let op = get_kk(opcode);
        if op == 0x07 {
            self.set_register(x, self.delay_timer);
            Ok(())
        } else if op == 0x0A {
            self.waiting = Some(x as u8);
            Ok(())
        } else if op == 0x15 {
            self.delay_timer = self.reg[x];
            Ok(())
        } else if op == 0x18 {
            self.sound_timer = self.reg[x];
            Ok(())
        } else if op == 0x1E {
            self.add_to_index(x)
        } else if op == 0x29 {
            self.point_at_glyph(x);
            Ok(())
        } else if op == 0x33 {
            self.store_decimal(x)
        } else if op == 0x55 {
            self.store_registers(x)
        } else if op == 0x65 {
            self.load_registers(x)
        } else {
            Err(Chip8Error::InvalidOpcode(opcode))
        }
    }
}

} // verus!
