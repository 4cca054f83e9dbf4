//! The machine as a mathematical object, and the meaning of its instructions.
//!
//! A [`Machine`] is the complete state: memory, registers, the two address
//! registers, the call stack, the display, the keypad, the timers and the
//! key-wait flag. Each instruction is a function from one machine to the
//! next, or to an error that leaves the machine as it was.

use vstd::prelude::*;
use crate::decode::{family_of, kk_of, n_of, nnn_of, x_of, y_of};
use crate::display::{cell_of, draw_collides, flipped, frame_after_draw};
use crate::error::{Chip8Error, Effect};
use crate::layout::with_font;

verus! {

/// The state of the machine.
#[verifier::ext_equal]
pub struct Machine {
    /// The 4096 bytes of memory.
    pub memory: Seq<u8>,
    /// The sixteen registers V0 to VF.
    pub registers: Seq<u8>,
    /// The index register I.
    pub index: u16,
    /// The program counter.
    pub pc: u16,
    /// The return addresses, the most recent call last.
    pub stack: Seq<u16>,
    /// The greatest depth the call stack may reach.
    pub stack_limit: nat,
    /// The 2048 pixels of the display, row by row, each 0 or 1.
    pub frame: Seq<u8>,
    /// Which of the sixteen keys are held down.
    pub keys: Seq<bool>,
    /// The delay timer.
    pub delay: u8,
    /// The sound timer.
    pub sound: u8,
    /// The register that awaits a key press, while the machine is suspended.
    pub waiting: Option<u8>,
}

/// What an instruction leads to: the next machine, or an error.
pub type Outcome = Result<Machine, Chip8Error>;

impl Machine {
    /// The shape every machine has: the sizes of its parts, one-bit pixels,
    /// a stack within its limit, and a key-wait that names a register.
    pub open spec fn wf(self) -> bool {
        &&& self.memory.len() == 4096
        &&& self.registers.len() == 16
        &&& self.frame.len() == 2048
        &&& self.keys.len() == 16
        &&& self.stack.len() <= self.stack_limit
        &&& forall|p: int| 0 <= p < 2048 ==> #[trigger] self.frame[p] <= 1
        &&& (self.waiting matches Some(x) ==> x < 16)
    }

    /// The machine after construction or reset: the font in memory, the
    /// program counter at 0x200, everything else zero.
    pub open spec fn initial(stack_limit: nat) -> Machine {
        Machine {
            memory: with_font(Seq::new(4096, |a: int| 0u8)),
            registers: Seq::new(16, |i: int| 0u8),
            index: 0,
            pc: 0x200,
            stack: Seq::empty(),
            stack_limit,
            frame: Seq::new(2048, |p: int| 0u8),
            keys: Seq::new(16, |k: int| false),
            delay: 0,
            sound: 0,
            waiting: None,
        }
    }

    /// This machine with `value` in register `x`.
    pub open spec fn with_register(self, x: int, value: u8) -> Machine {
        Machine { registers: self.registers.update(x, value), ..self }
    }

    /// This machine with the flag register VF set to 1 or 0.
    pub open spec fn with_flag(self, flag: bool) -> Machine {
        self.with_register(
            15,
            if flag {
                1
            } else {
                0
            },
        )
    }

    /// Whether `key` names a key that is held down. A value above 15 names
    /// no key.
    pub open spec fn key_down(self, key: int) -> bool {
        0 <= key < 16 && self.keys[key]
    }

    /// Clear display: every pixel becomes 0.
    pub open spec fn clear_display(self) -> Machine {
        Machine { frame: Seq::new(2048, |p: int| 0u8), ..self }
    }

    /// Return: the most recent return address leaves the stack and becomes
    /// the program counter.
    pub open spec fn return_from_call(self) -> Outcome {
        if self.stack.len() == 0 {
            Err(Chip8Error::StackUnderflow)
        } else {
            Ok(Machine { pc: self.stack.last(), stack: self.stack.drop_last(), ..self })
        }
    }

    /// Jump: the program counter becomes `target`.
    pub open spec fn jump(self, target: u16) -> Machine {
        Machine { pc: target, ..self }
    }

    /// Call: the program counter joins the stack, then becomes `target`.
    pub open spec fn call(self, target: u16) -> Outcome {
        if self.stack.len() >= self.stack_limit {
            Err(Chip8Error::StackOverflow)
        } else {
            Ok(Machine { pc: target, stack: self.stack.push(self.pc), ..self })
        }
    }

    /// Skip: where `condition` holds, the program counter moves past the
    /// next instruction. It cannot move past the end of its 16-bit range.
    pub open spec fn skip_if(self, condition: bool) -> Outcome {
        if !condition {
            Ok(self)
        } else if self.pc + 2 > 0xFFFF {
            Err(Chip8Error::MemoryOutOfBounds)
        } else {
            Ok(Machine { pc: (self.pc + 2) as u16, ..self })
        }
    }

    /// Add with carry: VX becomes the sum modulo 256, then VF the carry.
    pub open spec fn add_registers(self, x: int, y: int) -> Machine {
        let sum = self.registers[x] + self.registers[y];
        self.with_register(x, (sum % 256) as u8).with_flag(sum >= 256)
    }

    /// Subtract: VX becomes `minuend - subtrahend` modulo 256, then VF is 1
    /// where nothing was borrowed.
    pub open spec fn subtract(self, x: int, minuend: u8, subtrahend: u8) -> Machine {
        self.with_register(x, ((minuend - subtrahend) % 256) as u8).with_flag(minuend >= subtrahend)
    }

    /// Shift right: VX is halved, then VF becomes the bit that left.
    pub open spec fn shift_right(self, x: int) -> Machine {
        let value = self.registers[x];
        self.with_register(x, value / 2).with_flag(value % 2 == 1)
    }

    /// Shift left: VX is doubled modulo 256, then VF becomes the bit that
    /// left.
    pub open spec fn shift_left(self, x: int) -> Machine {
        let value = self.registers[x];
        self.with_register(x, ((value * 2) % 256) as u8).with_flag(value >= 128)
    }

    /// Add to index: I grows by VX. It cannot leave its 16-bit range.
    pub open spec fn add_to_index(self, x: int) -> Outcome {
        if self.index + self.registers[x] > 0xFFFF {
            Err(Chip8Error::MemoryOutOfBounds)
        } else {
            Ok(Machine { index: (self.index + self.registers[x]) as u16, ..self })
        }
    }

    /// Font glyph: I becomes the address of the glyph for the value of VX,
    /// five bytes per glyph from 0x50 on.
    pub open spec fn point_at_glyph(self, x: int) -> Machine {
        Machine { index: (0x50 + 5 * self.registers[x]) as u16, ..self }
    }

    /// Decimal digits: the hundreds, tens and ones of VX go to memory at I,
    /// I + 1 and I + 2.
    pub open spec fn store_decimal(self, x: int) -> Outcome {
        let value = self.registers[x];
        let at = self.index as int;
        if at + 2 >= 4096 {
            Err(Chip8Error::MemoryOutOfBounds)
        } else {
            Ok(
                Machine {
                    memory: self.memory.update(at, value / 100).update(
                        at + 1,
                        (value / 10) % 10,
                    ).update(at + 2, value % 10),
                    ..self
                },
            )
        }
    }

    /// Store registers: V0 to VX go to memory from I on, and I moves past
    /// them.
    pub open spec fn store_registers(self, x: int) -> Outcome {
        let at = self.index as int;
        if at + x >= 4096 {
            Err(Chip8Error::MemoryOutOfBounds)
        } else {
            Ok(
                Machine {
                    memory: Seq::new(
                        4096,
                        |a: int|
                            if at <= a <= at + x {
                                self.registers[a - at]
                            } else {
                                self.memory[a]
                            },
                    ),
                    index: (at + x + 1) as u16,
                    ..self
                },
            )
        }
    }

    /// Load registers: V0 to VX are read from memory from I on, and I moves
    /// past them.
    pub open spec fn load_registers(self, x: int) -> Outcome {
        let at = self.index as int;
        if at + x >= 4096 {
            Err(Chip8Error::MemoryOutOfBounds)
        } else {
            Ok(
                Machine {
                    registers: Seq::new(
                        16,
                        |i: int|
                            if i <= x {
                                self.memory[at + i]
                            } else {
                                self.registers[i]
                            },
                    ),
                    index: (at + x + 1) as u16,
                    ..self
                },
            )
        }
    }

    /// One pixel: the cell at `(x, y)`, wrapped onto the display, is
    /// combined by exclusive or with `bit`.
    pub open spec fn xor_pixel(self, x: int, y: int, bit: bool) -> Machine {
        let p = cell_of(x, y);
        if bit {
            Machine { frame: self.frame.update(p, flipped(self.frame[p])), ..self }
        } else {
            self
        }
    }

    /// The rows of the sprite that a draw of `height` rows reads: the bytes
    /// of memory from I on.
    pub open spec fn sprite_rows(self, height: int) -> Seq<u8> {
        Seq::new(height as nat, |row: int| self.memory[self.index + row])
    }

    /// Draw: the sprite of `height` rows at I is drawn at the pixel whose
    /// coordinates are the values of VX and VY, and VF tells whether a set
    /// pixel was cleared.
    pub open spec fn draw(self, x: int, y: int, height: int) -> Outcome {
        if height > 0 && self.index + height > 4096 {
            Err(Chip8Error::MemoryOutOfBounds)
        } else {
            let rows = self.sprite_rows(height);
            let vx = self.registers[x] as int;
            let vy = self.registers[y] as int;
            Ok(
                Machine {
                    frame: frame_after_draw(self.frame, rows, vx, vy),
                    ..self.with_flag(draw_collides(self.frame, rows, vx, vy))
                },
            )
        }
    }

    /// Family 0: clear the display (00E0) or return (00EE).
    pub open spec fn sys_addr(self, opcode: u16) -> Outcome {
        if opcode == 0x00E0 {
            Ok(self.clear_display())
        } else if opcode == 0x00EE {
            self.return_from_call()
        } else {
            Err(Chip8Error::InvalidOpcode(opcode))
        }
    }

    /// 1NNN: jump to NNN.
    pub open spec fn jp_addr(self, opcode: u16) -> Machine {
        self.jump(nnn_of(opcode))
    }

    /// 2NNN: call NNN.
    pub open spec fn call_addr(self, opcode: u16) -> Outcome {
        self.call(nnn_of(opcode))
    }

    /// 3XKK: skip where VX equals KK.
    pub open spec fn skip_if_equal(self, opcode: u16) -> Outcome {
        self.skip_if(self.registers[x_of(opcode)] == kk_of(opcode))
    }

    /// 4XKK: skip where VX differs from KK.
    pub open spec fn skip_if_not_equal(self, opcode: u16) -> Outcome {
        self.skip_if(self.registers[x_of(opcode)] != kk_of(opcode))
    }

    /// 5XY_: skip where VX equals VY.
    pub open spec fn skip_if_reg_equal(self, opcode: u16) -> Outcome {
        self.skip_if(self.registers[x_of(opcode)] == self.registers[y_of(opcode)])
    }

    /// 9XY_: skip where VX differs from VY.
    pub open spec fn skip_if_reg_not_equal(self, opcode: u16) -> Outcome {
        self.skip_if(self.registers[x_of(opcode)] != self.registers[y_of(opcode)])
    }

    /// 6XKK: VX becomes KK.
    pub open spec fn set_reg(self, opcode: u16) -> Machine {
        self.with_register(x_of(opcode), kk_of(opcode))
    }

    /// 7XKK: VX becomes VX + KK modulo 256. No flag is touched.
    pub open spec fn add_reg(self, opcode: u16) -> Machine {
        self.with_register(
            x_of(opcode),
            ((self.registers[x_of(opcode)] + kk_of(opcode)) % 256) as u8,
        )
    }

    /// Family 8: the operations on two registers, chosen by the last nibble.
    pub open spec fn reg_ops(self, opcode: u16) -> Outcome {
        let x = x_of(opcode);
        let y = y_of(opcode);
        let vx = self.registers[x];
        let vy = self.registers[y];
        let op = n_of(opcode);
        if op == 0x0 {
            Ok(self.with_register(x, vy))
        } else if op == 0x1 {
            Ok(self.with_register(x, vx | vy))
        } else if op == 0x2 {
            Ok(self.with_register(x, vx & vy))
        } else if op == 0x3 {
            Ok(self.with_register(x, vx ^ vy))
        } else if op == 0x4 {
            Ok(self.add_registers(x, y))
        } else if op == 0x5 {
            Ok(self.subtract(x, vx, vy))
        } else if op == 0x6 {
            Ok(self.shift_right(x))
        } else if op == 0x7 {
            Ok(self.subtract(x, vy, vx))
        } else if op == 0xE {
            Ok(self.shift_left(x))
        } else {
            Err(Chip8Error::InvalidOpcode(opcode))
        }
    }

    /// ANNN: I becomes NNN.
    pub open spec fn set_index(self, opcode: u16) -> Machine {
        Machine { index: nnn_of(opcode), ..self }
    }

    /// BNNN: jump to NNN plus the value of V0.
    pub open spec fn jp_offset(self, opcode: u16) -> Machine {
        self.jump((nnn_of(opcode) + self.registers[0]) as u16)
    }

    /// CXKK: VX becomes the random byte masked by KK.
    pub open spec fn set_random(self, opcode: u16, random: u8) -> Machine {
        self.with_register(x_of(opcode), random & kk_of(opcode))
    }

    /// DXYN: draw the sprite of N rows at (VX, VY).
    pub open spec fn display_sprite(self, opcode: u16) -> Outcome {
        self.draw(x_of(opcode), y_of(opcode), n_of(opcode))
    }

    /// Family E: skip where the key named by VX is down (EX9E) or is not
    /// (EXA1).
    pub open spec fn skip_if_key_state(self, opcode: u16) -> Outcome {
        let key = self.registers[x_of(opcode)] as int;
        if kk_of(opcode) == 0x9E {
            self.skip_if(self.key_down(key))
        } else if kk_of(opcode) == 0xA1 {
            self.skip_if(!self.key_down(key))
        } else {
            Err(Chip8Error::InvalidOpcode(opcode))
        }
    }

    /// Family F: timers, key-wait, index arithmetic and memory transfers,
    /// chosen by the low byte.
    pub open spec fn misc(self, opcode: u16) -> Outcome {
        let x = x_of(opcode);
        let op = kk_of(opcode);
        if op == 0x07 {
            Ok(self.with_register(x, self.delay))
        } else if op == 0x0A {
            Ok(Machine { waiting: Some(x as u8), ..self })
        } else if op == 0x15 {
            Ok(Machine { delay: self.registers[x], ..self })
        } else if op == 0x18 {
            Ok(Machine { sound: self.registers[x], ..self })
        } else if op == 0x1E {
            self.add_to_index(x)
        } else if op == 0x29 {
            Ok(self.point_at_glyph(x))
        } else if op == 0x33 {
            self.store_decimal(x)
        } else if op == 0x55 {
            self.store_registers(x)
        } else if op == 0x65 {
            self.load_registers(x)
        } else {
            Err(Chip8Error::InvalidOpcode(opcode))
        }
    }

    /// What one instruction word does. `random` is the byte that the random
    /// generator hands out; only family C reads it.
    pub open spec fn execute(self, opcode: u16, random: u8) -> Outcome {
        let family = family_of(opcode);
        if family == 0x0 {
            self.sys_addr(opcode)
        } else if family == 0x1 {
            Ok(self.jp_addr(opcode))
        } else if family == 0x2 {
            self.call_addr(opcode)
        } else if family == 0x3 {
            self.skip_if_equal(opcode)
        } else if family == 0x4 {
            self.skip_if_not_equal(opcode)
        } else if family == 0x5 {
            self.skip_if_reg_equal(opcode)
        } else if family == 0x6 {
            Ok(self.set_reg(opcode))
        } else if family == 0x7 {
            Ok(self.add_reg(opcode))
        } else if family == 0x8 {
            self.reg_ops(opcode)
        } else if family == 0x9 {
            self.skip_if_reg_not_equal(opcode)
        } else if family == 0xA {
            Ok(self.set_index(opcode))
        } else if family == 0xB {
            Ok(self.jp_offset(opcode))
        } else if family == 0xC {
            Ok(self.set_random(opcode, random))
        } else if family == 0xD {
            self.display_sprite(opcode)
        } else if family == 0xE {
            self.skip_if_key_state(opcode)
        } else {
            self.misc(opcode)
        }
    }

    /// Whether executing `opcode` with the random byte `random` leaves the
    /// machine `after` and reports `result`. On an error the machine is
    /// unchanged.
    pub open spec fn executes_to(
        self,
        opcode: u16,
        random: u8,
        after: Machine,
        result: Result<Effect, Chip8Error>,
    ) -> bool {
        &&& after == settled(self, self.execute(opcode, random))
        &&& result == reported(self.execute(opcode, random), effect_of(opcode))
    }

    /// The instruction word at the program counter, most significant byte
    /// first.
    pub open spec fn fetched(self) -> u16 {
        (self.memory[self.pc as int] * 256 + self.memory[self.pc + 1]) as u16
    }

    /// Both timers after one tick: each is one less, unless it is 0.
    pub open spec fn count_down(self) -> Machine {
        Machine {
            delay: if self.delay > 0 {
                (self.delay - 1) as u8
            } else {
                0
            },
            sound: if self.sound > 0 {
                (self.sound - 1) as u8
            } else {
                0
            },
            ..self
        }
    }

    /// This machine with the program counter past the word it points at.
    pub open spec fn advanced(self) -> Machine {
        Machine { pc: (self.pc + 2) as u16, ..self }
    }

    /// The machine after one fetch-decode-execute cycle.
    ///
    /// The word at the program counter is fetched, the counter moves past
    /// it, and the word is executed. An instruction that fails leaves the
    /// machine with the counter past it and nothing else changed. Where the
    /// word itself reaches past the end of memory, nothing changes at all.
    pub open spec fn cycle(self, random: u8) -> Machine {
        if self.pc + 1 >= 4096 {
            self
        } else {
            settled(self.advanced(), self.advanced().execute(self.fetched(), random))
        }
    }

    /// What one fetch-decode-execute cycle reports.
    pub open spec fn cycle_result(self, random: u8) -> Result<Effect, Chip8Error> {
        if self.pc + 1 >= 4096 {
            Err(Chip8Error::MemoryOutOfBounds)
        } else {
            reported(self.advanced().execute(self.fetched(), random), effect_of(self.fetched()))
        }
    }

    /// Whether a cycle with the random byte `random` leaves the machine
    /// `after` and reports `result`.
    pub open spec fn cycles_to(
        self,
        random: u8,
        after: Machine,
        result: Result<Effect, Chip8Error>,
    ) -> bool {
        after == self.cycle(random) && result == self.cycle_result(random)
    }

    /// Whether a cycle draws a random byte: the word at the program counter
    /// is of family C.
    pub open spec fn fetches_random(self) -> bool {
        self.pc + 1 < 4096 && is_random(self.fetched())
    }

    /// Whether a tick draws a random byte.
    pub open spec fn draws_random(self) -> bool {
        self.waiting.is_none() && self.fetches_random()
    }

    /// The machine after a tick.
    ///
    /// A machine that waits for a key executes nothing and only counts its
    /// timers down. Otherwise one cycle runs, and the timers count down
    /// after it unless it failed.
    pub open spec fn tick(self, random: u8) -> Machine {
        if self.waiting.is_some() {
            self.count_down()
        } else if self.cycle_result(random).is_ok() {
            self.cycle(random).count_down()
        } else {
            self.cycle(random)
        }
    }

    /// What a tick reports: that the machine still waits for a key, or what
    /// the cycle reported.
    pub open spec fn tick_result(self, random: u8) -> Result<Effect, Chip8Error> {
        if let Some(x) = self.waiting {
            Ok(Effect::WaitingForKey(x))
        } else {
            self.cycle_result(random)
        }
    }

    /// Whether a tick with the random byte `random` leaves the machine
    /// `after` and reports `result`.
    pub open spec fn ticks_to(
        self,
        random: u8,
        after: Machine,
        result: Result<Effect, Chip8Error>,
    ) -> bool {
        after == self.tick(random) && result == self.tick_result(random)
    }

    /// The keypad after the host reported `key` as pressed or released. A
    /// press ends a key-wait: the key's number goes to the register that
    /// waited.
    pub open spec fn set_key(self, key: int, pressed: bool) -> Machine {
        let keyed = Machine { keys: self.keys.update(key, pressed), ..self };
        match self.waiting {
            Some(x) if pressed => Machine { waiting: None, ..keyed.with_register(x as int, key as u8) },
            _ => keyed,
        }
    }

    /// The machine after `program` was copied to memory from 0x200 on.
    pub open spec fn load(self, program: Seq<u8>) -> Outcome {
        if program.len() > 3584 {
            Err(Chip8Error::MemoryOutOfBounds)
        } else {
            Ok(
                Machine {
                    memory: Seq::new(
                        4096,
                        |a: int|
                            if 0x200 <= a < 0x200 + program.len() {
                                program[a - 0x200]
                            } else {
                                self.memory[a]
                            },
                    ),
                    ..self
                },
            )
        }
    }
}

/// Whether the word draws a random byte.
pub open spec fn is_random(opcode: u16) -> bool {
    family_of(opcode) == 0xC
}

/// What the host may want to do after `opcode` succeeded.
pub open spec fn effect_of(opcode: u16) -> Effect {
    if opcode == 0x00E0 || family_of(opcode) == 0xD {
        Effect::DisplayChanged
    } else if family_of(opcode) == 0xF && kk_of(opcode) == 0x0A {
        Effect::WaitingForKey(x_of(opcode) as u8)
    } else {
        Effect::Nothing
    }
}

/// The machine that an instruction leaves behind: the one it leads to, or the
/// machine as it was where the instruction fails.
pub open spec fn settled(before: Machine, expected: Outcome) -> Machine {
    match expected {
        Ok(next) => next,
        Err(_) => before,
    }
}

/// What an instruction reports: `value` on success, or its error.
pub open spec fn reported<T>(expected: Outcome, value: T) -> Result<T, Chip8Error> {
    match expected {
        Ok(_) => Ok(value),
        Err(e) => Err(e),
    }
}

/// The same random byte is read by no instruction outside family C.
pub proof fn lemma_only_random_reads_random(m: Machine, opcode: u16, first: u8, second: u8)
    requires
        !is_random(opcode),
    ensures
        m.execute(opcode, first) == m.execute(opcode, second),
{
}

/// Every instruction leads from a well-formed machine to a well-formed one.
pub proof fn lemma_execute_preserves_wf(m: Machine, opcode: u16, random: u8)
    requires
        m.wf(),
    ensures
        m.execute(opcode, random) matches Ok(next) ==> next.wf() && next.stack_limit
            == m.stack_limit,
{
    assert(0 <= x_of(opcode) < 16);
    assert(0 <= y_of(opcode) < 16);
}

/// A tick leads from a well-formed machine to a well-formed one.
pub proof fn lemma_tick_preserves_wf(m: Machine, random: u8)
    requires
        m.wf(),
    ensures
        m.tick(random).wf(),
{
    if m.waiting.is_none() && m.pc + 1 < 4096 {
        lemma_execute_preserves_wf(m.advanced(), m.fetched(), random);
    }
}

/// The machine after construction is well formed.
pub proof fn lemma_initial_wf(stack_limit: nat)
    ensures
        Machine::initial(stack_limit).wf(),
{
}

} // verus!
