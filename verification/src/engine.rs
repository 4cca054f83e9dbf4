//! The executable machine.
//!
//! [`Chip8`] owns the whole state of one machine. Its view is a
//! [`Machine`]; every method says in its contract how the view changes, in
//! terms of the instruction semantics that [`Machine`] defines.

mod control;
mod draw;
mod misc;
mod registers;

use vstd::prelude::*;
use rand::rngs::SmallRng;
use crate::decode::{get_family, get_kk, get_x};
use crate::error::{Chip8Error, Effect};
use crate::layout::{
    with_font, DEFAULT_STACK_LIMIT, FALLBACK_SEED, FONT, FONT_SIZE, FONT_START, FRAME_HEIGHT,
    FRAME_SIZE, FRAME_WIDTH, KEY_COUNT, MEMORY_SIZE, PROGRAM_MAX, PROGRAM_START, REGISTER_COUNT,
};
use crate::machine::{effect_of, is_random, reported, settled, Machine};
use crate::rng::{entropy_generator, generator_from_seed, seeded_generator};

verus! {

/// One CHIP-8 machine. Machines share nothing: each owns its memory, its
/// display and its random generator.
pub struct Chip8 {
    // The font from 0x50 on, the program from 0x200 on.
    memory: [u8; MEMORY_SIZE],
    // V0, V1, ..., VF.
    reg: [u8; REGISTER_COUNT],
    index_reg: u16,
    // Return addresses, the most recent last; never more than `stack_limit`.
    stack: Vec<u16>,
    stack_limit: usize,
    // 64 x 32 pixels, row by row, each 0 or 1.
    frame_buffer: [u8; FRAME_SIZE],
    program_counter: u16,
    // Seeded at construction and never again.
    rand_rng: SmallRng,
    keys: [bool; KEY_COUNT],
    delay_timer: u8,
    sound_timer: u8,
    // The register that awaits a key press, while the machine is suspended.
    waiting: Option<u8>,
}

impl Chip8 {
    /// The machine that this value holds. The random generator is no part
    /// of it.
    pub closed spec fn view(&self) -> Machine {
        Machine {
            memory: self.memory@,
            registers: self.reg@,
            index: self.index_reg,
            pc: self.program_counter,
            stack: self.stack@,
            stack_limit: self.stack_limit as nat,
            frame: self.frame_buffer@,
            keys: self.keys@,
            delay: self.delay_timer,
            sound: self.sound_timer,
            waiting: self.waiting,
        }
    }

    /// The random generator of this machine, in its present state. Only an
    /// instruction that draws a byte advances it; nothing seeds it again.
    pub closed spec fn generator(&self) -> SmallRng {
        self.rand_rng
    }

    /// A machine in its initial state, with the default stack limit and a
    /// random generator seeded by the operating system. Where the system has
    /// no entropy to give, the generator starts from `FALLBACK_SEED`.
    pub fn new() -> (chip8: Chip8)
        ensures
            chip8@ == Machine::initial(DEFAULT_STACK_LIMIT as nat),
            chip8@.wf(),
    {
        let rng = match entropy_generator() {
            Some(rng) => rng,
            None => seeded_generator(FALLBACK_SEED),
        };
        Chip8::with_generator(rng)
    }

    /// A machine in its initial state whose random generator is the one
    /// that `seed` fixes, so that two machines with one seed start from the
    /// same generator and draw the same bytes.
    pub fn with_seed(seed: u64) -> (chip8: Chip8)
        ensures
            chip8@ == Machine::initial(DEFAULT_STACK_LIMIT as nat),
            chip8@.wf(),
            chip8.generator() == generator_from_seed(seed),
    {
        Chip8::with_generator(seeded_generator(seed))
    }

    /// A machine in its initial state, with the default stack limit, that
    /// draws its random bytes from `rng`.
    pub fn with_generator(rng: SmallRng) -> (chip8: Chip8)
        ensures
            chip8@ == Machine::initial(DEFAULT_STACK_LIMIT as nat),
            chip8@.wf(),
            chip8.generator() == rng,
    {
        let mut chip8 = Chip8 {
            memory: [0u8; MEMORY_SIZE],
            reg: [0u8; REGISTER_COUNT],
            index_reg: 0,
            stack: Vec::new(),
            stack_limit: DEFAULT_STACK_LIMIT,
            frame_buffer: [0u8; FRAME_SIZE],
            program_counter: PROGRAM_START as u16,
            rand_rng: rng,
            keys: [false; KEY_COUNT],
            delay_timer: 0,
            sound_timer: 0,
            waiting: None,
        };
        chip8.load_font();
        assert(chip8@ =~= Machine::initial(DEFAULT_STACK_LIMIT as nat));
        chip8
    }

    /// Copies the font to its place in memory.
    fn load_font(&mut self)
        requires
            old(self)@.wf(),
        ensures
            final(self)@ == (Machine { memory: with_font(old(self)@.memory), ..old(self)@ }),
            final(self)@.wf(),
            final(self).generator() == old(self).generator(),
    {
        let mut i: usize = 0;
        while i < FONT_SIZE
            invariant
                i <= FONT_SIZE,
                self@ == (Machine { memory: self@.memory, ..old(self)@ }),
                self.generator() == old(self).generator(),
                self@.memory.len() == 4096,
                forall|a: int|
                    0 <= a < 4096 ==> self@.memory[a] == if FONT_START <= a < FONT_START + i {
                        FONT[a - FONT_START]
                    } else {
                        old(self)@.memory[a]
                    },
            decreases FONT_SIZE - i,
        {
            self.memory[FONT_START + i] = FONT[i];
            i += 1;
        }
        assert(self@.memory =~= with_font(old(self)@.memory));
    }

    /// Puts the machine back into its initial state. The stack limit and
    /// the random generator stay as they are.
    pub fn reset(&mut self)
        ensures
            final(self)@ == Machine::initial(old(self)@.stack_limit),
            final(self)@.wf(),
            final(self).generator() == old(self).generator(),
    {
        self.memory = [0u8; MEMORY_SIZE];
        self.reg = [0u8; REGISTER_COUNT];
        self.index_reg = 0;
        self.stack.clear();
        self.frame_buffer = [0u8; FRAME_SIZE];
        self.program_counter = PROGRAM_START as u16;
        self.keys = [false; KEY_COUNT];
        self.delay_timer = 0;
        self.sound_timer = 0;
        self.waiting = None;
        self.load_font();
        assert(self@ =~= Machine::initial(old(self)@.stack_limit));
    }

    /// Copies `program` to memory from `PROGRAM_START` on. A program that
    /// does not fit is refused and nothing is copied.
    pub fn load(&mut self, program: &[u8]) -> (result: Result<(), Chip8Error>)
        requires
            old(self)@.wf(),
        ensures
            final(self)@ == settled(old(self)@, old(self)@.load(program@)),
            result == reported(old(self)@.load(program@), ()),
            final(self)@.wf(),
            final(self).generator() == old(self).generator(),
    {
        if program.len() > PROGRAM_MAX {
            return Err(Chip8Error::MemoryOutOfBounds);
        }
        let mut i: usize = 0;
        while i < program.len()
            invariant
                i <= program.len() <= PROGRAM_MAX,
                self@ == (Machine { memory: self@.memory, ..old(self)@ }),
                self.generator() == old(self).generator(),
                self@.memory.len() == 4096,
                forall|a: int|
                    0 <= a < 4096 ==> self@.memory[a] == if PROGRAM_START <= a < PROGRAM_START + i {
                        program@[a - PROGRAM_START]
                    } else {
                        old(self)@.memory[a]
                    },
            decreases program.len() - i,
        {
            self.memory[PROGRAM_START + i] = program[i];
            i += 1;
        }
        assert(self@.memory =~= old(self)@.load(program@).unwrap().memory);
        Ok(())
    }

    /// Reports that the host pressed or released `key`. A press ends a
    /// key-wait: the number of the key goes to the register that waited, and
    /// the next tick executes again.
    pub fn set_key(&mut self, key: usize, pressed: bool)
        requires
            old(self)@.wf(),
            key < 16,
        ensures
            final(self)@ == old(self)@.set_key(key as int, pressed),
            final(self)@.wf(),
            final(self).generator() == old(self).generator(),
    {
        self.keys[key] = pressed;
        if pressed {
            if let Some(x) = self.waiting {
                self.reg[x as usize] = key as u8;
                self.waiting = None;
            }
        }
        assert(self@ =~= old(self)@.set_key(key as int, pressed));
    }

    /// Whether `key` is held down.
    pub fn get_key_state(&self, key: usize) -> (pressed: bool)
        requires
            key < 16,
        ensures
            pressed == self@.keys[key as int],
    {
        self.keys[key]
    }

    /// The pixel in column `x` of row `y`: 0 or 1.
    pub fn get_pixel(&self, x: usize, y: usize) -> (pixel: u8)
        requires
            x < 64,
            y < 32,
        ensures
            pixel == self@.frame[y * 64 + x],
            self@.wf() ==> pixel <= 1,
    {
        self.frame_buffer[y * FRAME_WIDTH + x]
    }

    /// The width of the display in pixels.
    pub fn get_width(&self) -> (width: usize)
        ensures
            width == 64,
    {
        FRAME_WIDTH
    }

    /// The height of the display in pixels.
    pub fn get_height(&self) -> (height: usize)
        ensures
            height == 32,
    {
        FRAME_HEIGHT
    }

    /// The display, row by row, one byte per pixel.
    pub fn get_screen(&self) -> (screen: &[u8; FRAME_SIZE])
        ensures
            screen@ == self@.frame,
    {
        &self.frame_buffer
    }

    /// The memory.
    pub fn get_memory(&self) -> (memory: &[u8; MEMORY_SIZE])
        ensures
            memory@ == self@.memory,
    {
        &self.memory
    }

    /// The registers V0 to VF.
    pub fn get_registers(&self) -> (registers: &[u8; REGISTER_COUNT])
        ensures
            registers@ == self@.registers,
    {
        &self.reg
    }

    /// The state of the sixteen keys.
    pub fn get_keys(&self) -> (keys: &[bool; KEY_COUNT])
        ensures
            keys@ == self@.keys,
    {
        &self.keys
    }

    /// The call stack, the most recent return address last.
    pub fn get_stack(&self) -> (stack: &Vec<u16>)
        ensures
            stack@ == self@.stack,
    {
        &self.stack
    }

    /// The greatest depth the call stack may reach.
    pub fn get_stack_limit(&self) -> (limit: usize)
        ensures
            limit == self@.stack_limit,
    {
        self.stack_limit
    }

    /// The program counter.
    pub fn get_program_counter(&self) -> (pc: u16)
        ensures
            pc == self@.pc,
    {
        self.program_counter
    }

    /// The index register.
    pub fn get_index_register(&self) -> (index: u16)
        ensures
            index == self@.index,
    {
        self.index_reg
    }

    /// The delay timer.
    pub fn get_delay_timer(&self) -> (delay: u8)
        ensures
            delay == self@.delay,
    {
        self.delay_timer
    }

    /// The sound timer. The host sounds its tone while this is not 0.
    pub fn get_sound_timer(&self) -> (sound: u8)
        ensures
            sound == self@.sound,
    {
        self.sound_timer
    }

    /// The register that awaits a key press, while the machine is suspended.
    pub fn get_waiting(&self) -> (waiting: Option<u8>)
        ensures
            waiting == self@.waiting,
    {
        self.waiting
    }

    /// Changes the greatest depth the call stack may reach. A limit below
    /// the present depth is refused.
    pub fn set_stack_limit(&mut self, limit: usize) -> (result: Result<(), Chip8Error>)
        requires
            old(self)@.wf(),
        ensures
            old(self)@.stack.len() <= limit ==> result.is_ok() && final(self)@ == (Machine {
                stack_limit: limit as nat,
                ..old(self)@
            }),
            old(self)@.stack.len() > limit ==> result == Err::<(), Chip8Error>(
                Chip8Error::StackOverflow,
            ) && final(self)@ == old(self)@,
            final(self)@.wf(),
            final(self).generator() == old(self).generator(),
    {
        if self.stack.len() > limit {
            return Err(Chip8Error::StackOverflow);
        }
        self.stack_limit = limit;
        Ok(())
    }

    /// Writes `value` to register `x`.
    pub fn set_register(&mut self, x: usize, value: u8)
        requires
            old(self)@.wf(),
            x < 16,
        ensures
            final(self)@ == old(self)@.with_register(x as int, value),
            final(self)@.wf(),
            final(self).generator() == old(self).generator(),
    {
        self.reg[x] = value;
        assert(self@ =~= old(self)@.with_register(x as int, value));
    }

    /// Writes `value` to the index register.
    pub fn set_index_register(&mut self, value: u16)
        requires
            old(self)@.wf(),
        ensures
            final(self)@ == (Machine { index: value, ..old(self)@ }),
            final(self)@.wf(),
            final(self).generator() == old(self).generator(),
    {
        self.index_reg = value;
    }

    /// Writes `value` to the program counter.
    pub fn set_program_counter(&mut self, value: u16)
        requires
            old(self)@.wf(),
        ensures
            final(self)@ == old(self)@.jump(value),
            final(self)@.wf(),
            final(self).generator() == old(self).generator(),
    {
        self.program_counter = value;
    }

    /// Writes `value` to memory at `address`.
    pub fn set_memory(&mut self, address: usize, value: u8)
        requires
            old(self)@.wf(),
            address < 4096,
        ensures
            final(self)@ == (Machine {
                memory: old(self)@.memory.update(address as int, value),
                ..old(self)@
            }),
            final(self)@.wf(),
            final(self).generator() == old(self).generator(),
    {
        self.memory[address] = value;
        assert(self@.memory =~= old(self)@.memory.update(address as int, value));
    }

    /// Sets or clears the pixel in column `x` of row `y`.
    pub fn set_pixel(&mut self, x: usize, y: usize, value: u8)
        requires
            old(self)@.wf(),
            x < 64,
            y < 32,
            value <= 1,
        ensures
            final(self)@ == (Machine {
                frame: old(self)@.frame.update(y * 64 + x, value),
                ..old(self)@
            }),
            final(self)@.wf(),
            final(self).generator() == old(self).generator(),
    {
        self.frame_buffer[y * FRAME_WIDTH + x] = value;
        assert(self@.frame =~= old(self)@.frame.update(y * 64 + x, value));
    }

    /// Puts `address` on the call stack, as a call does, and leaves the
    /// program counter alone.
    pub fn push_stack(&mut self, address: u16) -> (result: Result<(), Chip8Error>)
        requires
            old(self)@.wf(),
        ensures
            old(self)@.stack.len() < old(self)@.stack_limit ==> result.is_ok() && final(self)@ == (
            Machine { stack: old(self)@.stack.push(address), ..old(self)@ }),
            old(self)@.stack.len() >= old(self)@.stack_limit ==> result == Err::<(), Chip8Error>(
                Chip8Error::StackOverflow,
            ) && final(self)@ == old(self)@,
            final(self)@.wf(),
            final(self).generator() == old(self).generator(),
    {
        if self.stack.len() >= self.stack_limit {
            return Err(Chip8Error::StackOverflow);
        }
        self.stack.push(address);
        Ok(())
    }

    /// What the host may want to do after `opcode` succeeded.
    fn effect_for(opcode: u16) -> (effect: Effect)
        ensures
            effect == effect_of(opcode),
    {
        let family = get_family(opcode);
        if opcode == 0x00E0 || family == 0xD {
            Effect::DisplayChanged
        } else if family == 0xF && get_kk(opcode) == 0x0A {
            Effect::WaitingForKey(get_x(opcode) as u8)
        } else {
            Effect::Nothing
        }
    }

    /// Executes one instruction word.
    ///
    /// The first nibble selects the family, and the family's handler does
    /// the rest. On success the machine is as [`Machine::execute`] says and
    /// the result tells what the host may want to do. On an error the
    /// machine is unchanged. Only family C draws a random byte; for every
    /// other word the outcome is fixed by the machine and the word.
    pub fn handle_opcode(&mut self, opcode: u16) -> (result: Result<Effect, Chip8Error>)
        requires
            old(self)@.wf(),
        ensures
            exists|random: u8| #[trigger]
                old(self)@.executes_to(opcode, random, final(self)@, result),
            !is_random(opcode) ==> old(self)@.executes_to(opcode, 0, final(self)@, result),
            !is_random(opcode) ==> final(self).generator() == old(self).generator(),
            final(self)@.wf(),
    {
        let family = get_family(opcode);
        let outcome = if family == 0x0 {
            self.sys_addr(opcode)
        } else if family == 0x1 {
            self.jp_addr(opcode);
            Ok(())
        } else if family == 0x2 {
            self.call_addr(opcode)
        } else if family == 0x3 {
            self.skip_if_equal(opcode)
        } else if family == 0x4 {
            self.skip_if_not_equal(opcode)
        } else if family == 0x5 {
            self.skip_if_reg_equal(opcode)
        } else if family == 0x6 {
            self.set_reg(opcode);
            Ok(())
        } else if family == 0x7 {
            self.add_reg(opcode);
            Ok(())
        } else if family == 0x8 {
            self.reg_ops(opcode)
        } else if family == 0x9 {
            self.skip_if_reg_not_equal(opcode)
        } else if family == 0xA {
            self.set_index(opcode);
            Ok(())
        } else if family == 0xB {
            self.jp_offset(opcode);
            Ok(())
        } else if family == 0xC {
            self.rand(opcode);
            Ok(())
        } else if family == 0xD {
            self.display_sprite(opcode)
        } else if family == 0xE {
            self.skip_if_key_state(opcode)
        } else {
            self.misc(opcode)
        };
        let result = match outcome {
            Ok(()) => Ok(Chip8::effect_for(opcode)),
            Err(e) => Err(e),
        };
        proof {
            if is_random(opcode) {
                let random = choose|random: u8|
                    self@ == #[trigger] old(self)@.set_random(opcode, random);
                assert(old(self)@.executes_to(opcode, random, self@, result));
            } else {
                assert(old(self)@.executes_to(opcode, 0, self@, result));
            }
        }
        result
    }

    /// Runs one fetch-decode-execute cycle: reads the word at the program
    /// counter, most significant byte first, moves the counter past it, and
    /// executes the word.
    fn execute_instructions(&mut self) -> (result: Result<Effect, Chip8Error>)
        requires
            old(self)@.wf(),
        ensures
            exists|random: u8| #[trigger] old(self)@.cycles_to(random, final(self)@, result),
            !old(self)@.fetches_random() ==> old(self)@.cycles_to(0, final(self)@, result),
            !old(self)@.fetches_random() ==> final(self).generator() == old(self).generator(),
            final(self)@.wf(),
    {
        let pc = self.program_counter as usize;
        if pc + 1 >= MEMORY_SIZE {
            assert(old(self)@.cycles_to(
                0,
                self@,
                Err::<Effect, Chip8Error>(Chip8Error::MemoryOutOfBounds),
            ));
            return Err(Chip8Error::MemoryOutOfBounds);
        }
        let high = self.memory[pc] as u16;
        let low = self.memory[pc + 1] as u16;
        assert(high << 8 | low == high * 256 + low) by (bit_vector)
            requires
                high < 256,
                low < 256,
        ;
        let opcode = high << 8 | low;
        self.program_counter = self.program_counter + 2;
        let ghost advanced = self@;
        assert(advanced == old(self)@.advanced());
        let result = self.handle_opcode(opcode);
        proof {
            let random = choose|random: u8| #[trigger]
                advanced.executes_to(opcode, random, self@, result);
            assert(old(self)@.cycles_to(random, self@, result));
        }
        result
    }

    /// Counts both timers down by one, unless they are 0.
    fn count_down(&mut self)
        requires
            old(self)@.wf(),
        ensures
            final(self)@ == old(self)@.count_down(),
            final(self)@.wf(),
            final(self).generator() == old(self).generator(),
    {
        if self.delay_timer > 0 {
            self.delay_timer = self.delay_timer - 1;
        }
        if self.sound_timer > 0 {
            self.sound_timer = self.sound_timer - 1;
        }
    }

    /// Advances the machine by one tick.
    ///
    /// A machine that waits for a key executes nothing: it counts its timers
    /// down and reports that it still waits. Otherwise one instruction is
    /// fetched and executed, and both timers count down after it. An
    /// instruction that fails is reported; the program counter is then past
    /// it, the timers are untouched, and the next tick goes on with the
    /// instruction that follows.
    pub fn tick(&mut self) -> (result: Result<Effect, Chip8Error>)
        requires
            old(self)@.wf(),
        ensures
            exists|random: u8| #[trigger] old(self)@.ticks_to(random, final(self)@, result),
            !old(self)@.draws_random() ==> old(self)@.ticks_to(0, final(self)@, result),
            !old(self)@.draws_random() ==> final(self).generator() == old(self).generator(),
            final(self)@.wf(),
    {
        if let Some(x) = self.waiting {
            self.count_down();
            assert(old(self)@.ticks_to(
                0,
                self@,
                Ok::<Effect, Chip8Error>(Effect::WaitingForKey(x)),
            ));
            return Ok(Effect::WaitingForKey(x));
        }
        let result = self.execute_instructions();
        let ghost cycled = self@;
        if result.is_ok() {
            self.count_down();
        }
        proof {
            let random = choose|random: u8| #[trigger]
                old(self)@.cycles_to(random, cycled, result);
            assert(old(self)@.ticks_to(random, self@, result));
        }
        result
    }
}

} // verus!
