use chip8::layout::{DEFAULT_STACK_LIMIT, FONT, FONT_START};
use chip8::{Chip8, Chip8Error, Effect};
use rand::rngs::SmallRng;
use rand::SeedableRng;

/// A machine with a fixed seed, so that every run draws the same bytes.
fn machine() -> Chip8 {
    Chip8::with_seed(0x5EED)
}

#[test]
fn new_machine_is_in_its_initial_state() {
    let chip8 = Chip8::new();
    assert_eq!(chip8.get_program_counter(), 0x200);
    assert_eq!(chip8.get_index_register(), 0);
    assert_eq!(chip8.get_delay_timer(), 0);
    assert_eq!(chip8.get_sound_timer(), 0);
    assert_eq!(chip8.get_waiting(), None);
    assert!(chip8.get_stack().is_empty());
    assert_eq!(chip8.get_stack_limit(), DEFAULT_STACK_LIMIT);
    assert_eq!(chip8.get_stack_limit(), 16);
    assert!(chip8.get_registers().iter().all(|&v| v == 0));
    assert!(chip8.get_screen().iter().all(|&p| p == 0));
    assert!(chip8.get_keys().iter().all(|&k| !k));
    assert_eq!(chip8.get_width(), 64);
    assert_eq!(chip8.get_height(), 32);
}

#[test]
fn font_occupies_eighty_bytes_from_0x50() {
    let chip8 = machine();
    let memory = chip8.get_memory();
    assert_eq!(FONT_START, 0x50);
    assert_eq!(FONT.len(), 80);
    for (i, byte) in FONT.iter().enumerate() {
        assert_eq!(memory[0x50 + i], *byte);
    }
    // Nothing else is set.
    for (address, byte) in memory.iter().enumerate() {
        if !(0x50..0xA0).contains(&address) {
            assert_eq!(*byte, 0);
        }
    }
    // The glyphs of 0, 1, A and F.
    assert_eq!(&memory[0x50..0x55], &[0xF0, 0x90, 0x90, 0x90, 0xF0]);
    assert_eq!(&memory[0x55..0x5A], &[0x20, 0x60, 0x20, 0x20, 0x70]);
    assert_eq!(&memory[0x82..0x87], &[0xF0, 0x90, 0xF0, 0x90, 0x90]);
    assert_eq!(&memory[0x9B..0xA0], &[0xF0, 0x80, 0xF0, 0x80, 0x80]);
}

#[test]
fn reset_restores_the_initial_state() {
    let mut chip8 = machine();
    chip8.load(&[0x6A, 0x42, 0x22, 0x08]).unwrap();
    chip8.tick().unwrap();
    chip8.tick().unwrap();
    chip8.set_register(3, 9);
    chip8.set_index_register(0x333);
    chip8.set_pixel(5, 5, 1);
    chip8.set_key(4, true);
    chip8.set_memory(0x51, 0xAA);
    chip8.handle_opcode(0xF315).unwrap();
    chip8.handle_opcode(0xF318).unwrap();
    chip8.handle_opcode(0xF50A).unwrap();
    chip8.set_stack_limit(4).unwrap();

    chip8.reset();

    let fresh = machine();
    assert_eq!(chip8.get_memory(), fresh.get_memory());
    assert_eq!(chip8.get_registers(), fresh.get_registers());
    assert_eq!(chip8.get_screen(), fresh.get_screen());
    assert_eq!(chip8.get_keys(), fresh.get_keys());
    assert_eq!(chip8.get_program_counter(), 0x200);
    assert_eq!(chip8.get_index_register(), 0);
    assert_eq!(chip8.get_delay_timer(), 0);
    assert_eq!(chip8.get_sound_timer(), 0);
    assert_eq!(chip8.get_waiting(), None);
    assert!(chip8.get_stack().is_empty());
    // The stack limit is configuration, not state.
    assert_eq!(chip8.get_stack_limit(), 4);
}

#[test]
fn load_copies_the_program_to_0x200() {
    let mut chip8 = machine();
    assert_eq!(chip8.load(&[0x12, 0x34, 0x56]), Ok(()));
    let memory = chip8.get_memory();
    assert_eq!(memory[0x1FF], 0);
    assert_eq!(memory[0x200], 0x12);
    assert_eq!(memory[0x201], 0x34);
    assert_eq!(memory[0x202], 0x56);
    assert_eq!(memory[0x203], 0);
    assert_eq!(memory[0x50], 0xF0);
}

#[test]
fn load_accepts_the_largest_program_and_refuses_a_larger_one() {
    let mut chip8 = machine();
    let largest = vec![0xAB; 3584];
    assert_eq!(chip8.load(&largest), Ok(()));
    assert_eq!(chip8.get_memory()[0x200], 0xAB);
    assert_eq!(chip8.get_memory()[0xFFF], 0xAB);

    let mut other = machine();
    let too_large = vec![0xCD; 3585];
    assert_eq!(other.load(&too_large), Err(Chip8Error::MemoryOutOfBounds));
    assert!(other.get_memory()[0x200..].iter().all(|&b| b == 0));
}

#[test]
fn decoder_extracts_the_fields() {
    assert_eq!(chip8::decode::get_family(0xD123), 0xD);
    assert_eq!(chip8::decode::get_x(0xD123), 1);
    assert_eq!(chip8::decode::get_y(0xD123), 2);
    assert_eq!(chip8::decode::get_n(0xD123), 3);
    assert_eq!(chip8::decode::get_kk(0xD123), 0x23);
    assert_eq!(chip8::decode::get_nnn(0xD123), 0x123);
    assert_eq!(chip8::decode::get_x(0xFFFF), 15);
    assert_eq!(chip8::decode::get_y(0xFFFF), 15);
    assert_eq!(chip8::decode::get_kk(0xFFFF), 0xFF);
    assert_eq!(chip8::decode::get_nnn(0xFFFF), 0xFFF);
    assert_eq!(chip8::decode::get_nnn(0x0000), 0);
}

#[test]
fn tick_fetches_most_significant_byte_first_and_advances() {
    let mut chip8 = machine();
    chip8.load(&[0x6A, 0x42]).unwrap();
    assert_eq!(chip8.tick(), Ok(Effect::Nothing));
    assert_eq!(chip8.get_registers()[10], 0x42);
    assert_eq!(chip8.get_program_counter(), 0x202);
}

#[test]
fn jump_overwrites_the_advanced_counter() {
    let mut chip8 = machine();
    chip8.load(&[0x13, 0x00]).unwrap();
    chip8.tick().unwrap();
    assert_eq!(chip8.get_program_counter(), 0x300);
}

#[test]
fn tick_counts_both_timers_down_and_stops_at_zero() {
    let mut chip8 = machine();
    // V0 = 2; delay = V0; sound = V0; then three harmless loads.
    chip8.load(&[0x60, 0x02, 0xF0, 0x15, 0xF0, 0x18, 0x61, 0x00, 0x61, 0x00, 0x61, 0x00]).unwrap();
    chip8.tick().unwrap();
    chip8.tick().unwrap();
    // The delay timer was set to 2 and counted down in the same tick.
    assert_eq!(chip8.get_delay_timer(), 1);
    chip8.tick().unwrap();
    assert_eq!(chip8.get_delay_timer(), 0);
    assert_eq!(chip8.get_sound_timer(), 1);
    chip8.tick().unwrap();
    assert_eq!(chip8.get_delay_timer(), 0);
    assert_eq!(chip8.get_sound_timer(), 0);
    chip8.tick().unwrap();
    assert_eq!(chip8.get_delay_timer(), 0);
    assert_eq!(chip8.get_sound_timer(), 0);
}

#[test]
fn read_delay_timer_into_register() {
    let mut chip8 = machine();
    chip8.set_register(1, 77);
    chip8.handle_opcode(0xF115).unwrap();
    assert_eq!(chip8.get_delay_timer(), 77);
    chip8.handle_opcode(0xF407).unwrap();
    assert_eq!(chip8.get_registers()[4], 77);
    chip8.handle_opcode(0xF118).unwrap();
    assert_eq!(chip8.get_sound_timer(), 77);
}

#[test]
fn invalid_opcodes_are_reported_and_change_nothing() {
    for opcode in [0x0000u16, 0x0123, 0x00E1, 0x8128, 0x812F, 0xE19F, 0xE100, 0xF1FF, 0xF100] {
        let mut chip8 = machine();
        chip8.set_register(1, 3);
        assert_eq!(chip8.handle_opcode(opcode), Err(Chip8Error::InvalidOpcode(opcode)));
        assert_eq!(chip8.get_program_counter(), 0x200);
        assert_eq!(chip8.get_registers()[1], 3);
        assert_eq!(chip8.get_registers()[15], 0);
    }
}

#[test]
fn failed_instruction_leaves_the_counter_past_it_and_the_timers_alone() {
    let mut chip8 = machine();
    chip8.set_register(0, 9);
    chip8.handle_opcode(0xF015).unwrap();
    chip8.load(&[0x81, 0x28, 0x6A, 0x42]).unwrap();
    assert_eq!(chip8.tick(), Err(Chip8Error::InvalidOpcode(0x8128)));
    assert_eq!(chip8.get_program_counter(), 0x202);
    assert_eq!(chip8.get_delay_timer(), 9);
    // The host may go on: the next tick executes the next instruction.
    assert_eq!(chip8.tick(), Ok(Effect::Nothing));
    assert_eq!(chip8.get_registers()[10], 0x42);
    assert_eq!(chip8.get_delay_timer(), 8);
}

#[test]
fn fetch_past_the_end_of_memory_is_out_of_bounds() {
    let mut chip8 = machine();
    chip8.set_program_counter(0xFFF);
    assert_eq!(chip8.tick(), Err(Chip8Error::MemoryOutOfBounds));
    assert_eq!(chip8.get_program_counter(), 0xFFF);

    chip8.set_program_counter(0xFFE);
    chip8.set_memory(0xFFE, 0x6A);
    chip8.set_memory(0xFFF, 0x42);
    assert_eq!(chip8.tick(), Ok(Effect::Nothing));
    assert_eq!(chip8.get_program_counter(), 0x1000);
    assert_eq!(chip8.tick(), Err(Chip8Error::MemoryOutOfBounds));
}

#[test]
fn return_with_empty_stack_underflows() {
    let mut chip8 = machine();
    assert_eq!(chip8.handle_opcode(0x00EE), Err(Chip8Error::StackUnderflow));
    assert_eq!(chip8.sys_addr(0x00EE), Err(Chip8Error::StackUnderflow));
    assert_eq!(chip8.get_program_counter(), 0x200);
}

#[test]
fn call_beyond_the_stack_limit_overflows() {
    let mut chip8 = machine();
    for depth in 0..16 {
        assert_eq!(chip8.get_stack().len(), depth);
        assert_eq!(chip8.handle_opcode(0x2300), Ok(Effect::Nothing));
    }
    assert_eq!(chip8.handle_opcode(0x2400), Err(Chip8Error::StackOverflow));
    assert_eq!(chip8.get_stack().len(), 16);
    assert_eq!(chip8.get_program_counter(), 0x300);
    assert_eq!(chip8.push_stack(0x222), Err(Chip8Error::StackOverflow));
}

#[test]
fn stack_limit_is_configurable() {
    let mut chip8 = machine();
    assert_eq!(chip8.set_stack_limit(2), Ok(()));
    assert_eq!(chip8.get_stack_limit(), 2);
    chip8.handle_opcode(0x2300).unwrap();
    chip8.handle_opcode(0x2400).unwrap();
    assert_eq!(chip8.handle_opcode(0x2500), Err(Chip8Error::StackOverflow));
    // A limit below the present depth is refused.
    assert_eq!(chip8.set_stack_limit(1), Err(Chip8Error::StackOverflow));
    assert_eq!(chip8.get_stack_limit(), 2);
    assert_eq!(chip8.set_stack_limit(3), Ok(()));
    assert_eq!(chip8.handle_opcode(0x2500), Ok(Effect::Nothing));
    assert_eq!(chip8.get_stack(), &vec![0x200, 0x300, 0x400]);
}

#[test]
fn call_then_return_resumes_after_the_call() {
    let mut chip8 = machine();
    // 0x200: call 0x206; 0x206: return.
    chip8.load(&[0x22, 0x06, 0x00, 0x00, 0x00, 0x00, 0x00, 0xEE]).unwrap();
    let depth = chip8.get_stack().len();
    chip8.tick().unwrap();
    assert_eq!(chip8.get_program_counter(), 0x206);
    assert_eq!(chip8.get_stack(), &vec![0x202]);
    chip8.tick().unwrap();
    assert_eq!(chip8.get_program_counter(), 0x202);
    assert_eq!(chip8.get_stack().len(), depth);
}

#[test]
fn nested_calls_return_in_reverse_order() {
    let mut chip8 = machine();
    chip8.set_program_counter(0x202);
    chip8.call_addr(0x2400).unwrap();
    chip8.set_program_counter(0x402);
    chip8.call_addr(0x2600).unwrap();
    assert_eq!(chip8.get_stack(), &vec![0x202, 0x402]);
    chip8.sys_addr(0x00EE).unwrap();
    assert_eq!(chip8.get_program_counter(), 0x402);
    chip8.sys_addr(0x00EE).unwrap();
    assert_eq!(chip8.get_program_counter(), 0x202);
}

#[test]
fn skip_if_registers_differ() {
    let mut chip8 = machine();
    chip8.set_register(3, 1);
    chip8.set_register(7, 2);
    assert_eq!(chip8.skip_if_reg_not_equal(0x9370), Ok(()));
    assert_eq!(chip8.get_program_counter(), 0x202);
    chip8.set_register(7, 1);
    assert_eq!(chip8.handle_opcode(0x9370), Ok(Effect::Nothing));
    assert_eq!(chip8.get_program_counter(), 0x202);
}

#[test]
fn skip_at_the_end_of_the_counter_range_is_out_of_bounds() {
    let mut chip8 = machine();
    chip8.set_program_counter(0xFFFD);
    assert_eq!(chip8.skip_if_equal(0x3000), Ok(()));
    assert_eq!(chip8.get_program_counter(), 0xFFFF);
    assert_eq!(chip8.skip_if_equal(0x3000), Err(Chip8Error::MemoryOutOfBounds));
    assert_eq!(chip8.get_program_counter(), 0xFFFF);
    // Where the condition fails nothing moves and nothing is refused.
    assert_eq!(chip8.skip_if_equal(0x3001), Ok(()));
    assert_eq!(chip8.get_program_counter(), 0xFFFF);
}

#[test]
fn jump_with_offset_may_leave_memory() {
    let mut chip8 = machine();
    chip8.set_register(0, 0xFF);
    chip8.jp_offset(0xBFFF);
    assert_eq!(chip8.get_program_counter(), 0x10FE);
    assert_eq!(chip8.tick(), Err(Chip8Error::MemoryOutOfBounds));
}

#[test]
fn add_immediate_is_modulo_256_and_sets_no_flag() {
    for (old, kk) in [(0u8, 0u8), (1, 255), (255, 255), (200, 100), (128, 128), (10, 32)] {
        let mut chip8 = machine();
        chip8.set_register(4, old);
        chip8.handle_opcode(0x7400 | kk as u16).unwrap();
        assert_eq!(chip8.get_registers()[4] as u16, (old as u16 + kk as u16) % 256);
        assert_eq!(chip8.get_registers()[15], 0);
    }
    let mut chip8 = machine();
    chip8.set_register(4, 200);
    chip8.add_reg(0x7464);
    assert_eq!(chip8.get_registers()[4], 44);
}

#[test]
fn addition_sets_the_flag_exactly_on_carry() {
    for (x, y, sum, flag) in [(255u8, 1u8, 0u8, 1u8), (255, 0, 255, 0), (128, 128, 0, 1), (127, 128, 255, 0), (255, 255, 254, 1), (0, 0, 0, 0)] {
        let mut chip8 = machine();
        chip8.set_register(1, x);
        chip8.set_register(2, y);
        chip8.set_register(15, 7);
        chip8.handle_opcode(0x8124).unwrap();
        assert_eq!(chip8.get_registers()[1], sum);
        assert_eq!(chip8.get_registers()[15], flag);
        assert_eq!(chip8.get_registers()[2], y);
    }
}

#[test]
fn subtraction_sets_the_flag_exactly_without_borrow() {
    for (x, y, difference, flag) in [(5u8, 5u8, 0u8, 1u8), (0, 1, 255, 0), (255, 0, 255, 1), (0, 255, 1, 0), (100, 200, 156, 0)] {
        let mut chip8 = machine();
        chip8.set_register(1, x);
        chip8.set_register(2, y);
        chip8.handle_opcode(0x8125).unwrap();
        assert_eq!(chip8.get_registers()[1], difference);
        assert_eq!(chip8.get_registers()[15], flag);

        // The reversed subtraction computes VY - VX.
        let mut chip8 = machine();
        chip8.set_register(1, y);
        chip8.set_register(2, x);
        chip8.handle_opcode(0x8127).unwrap();
        assert_eq!(chip8.get_registers()[1], difference);
        assert_eq!(chip8.get_registers()[15], flag);
    }
}

#[test]
fn shifts_put_the_lost_bit_into_the_flag() {
    for value in [0u8, 1, 2, 0x7F, 0x80, 0x81, 0xFE, 0xFF] {
        let mut chip8 = machine();
        chip8.set_register(6, value);
        chip8.handle_opcode(0x8606).unwrap();
        assert_eq!(chip8.get_registers()[6], value >> 1);
        assert_eq!(chip8.get_registers()[15], value & 1);

        let mut chip8 = machine();
        chip8.set_register(6, value);
        chip8.handle_opcode(0x860E).unwrap();
        assert_eq!(chip8.get_registers()[6], value << 1);
        assert_eq!(chip8.get_registers()[15], value >> 7);
    }
}

#[test]
fn flag_wins_where_the_result_register_is_the_flag_register() {
    // VF = VF + V1: the carry is written last.
    let mut chip8 = machine();
    chip8.set_register(15, 200);
    chip8.set_register(1, 100);
    chip8.handle_opcode(0x8F14).unwrap();
    assert_eq!(chip8.get_registers()[15], 1);

    let mut chip8 = machine();
    chip8.set_register(15, 1);
    chip8.set_register(1, 1);
    chip8.handle_opcode(0x8F14).unwrap();
    assert_eq!(chip8.get_registers()[15], 0);

    // VF = VF - V1 without borrow.
    let mut chip8 = machine();
    chip8.set_register(15, 9);
    chip8.set_register(1, 4);
    chip8.handle_opcode(0x8F15).unwrap();
    assert_eq!(chip8.get_registers()[15], 1);

    // Shifting VF: the flag is the bit that VF lost.
    let mut chip8 = machine();
    chip8.set_register(15, 0x03);
    chip8.handle_opcode(0x8F06).unwrap();
    assert_eq!(chip8.get_registers()[15], 1);

    let mut chip8 = machine();
    chip8.set_register(15, 0x82);
    chip8.handle_opcode(0x8F0E).unwrap();
    assert_eq!(chip8.get_registers()[15], 1);

    let mut chip8 = machine();
    chip8.set_register(15, 0x42);
    chip8.handle_opcode(0x8F0E).unwrap();
    assert_eq!(chip8.get_registers()[15], 0);
}

#[test]
fn logic_operations_touch_no_flag() {
    for op in [0x0u16, 0x1, 0x2, 0x3] {
        let mut chip8 = machine();
        chip8.set_register(1, 0xF0);
        chip8.set_register(2, 0x3C);
        chip8.set_register(15, 5);
        chip8.handle_opcode(0x8120 | op).unwrap();
        assert_eq!(chip8.get_registers()[15], 5);
    }
}

#[test]
fn random_byte_is_masked_by_the_immediate() {
    let mut chip8 = machine();
    chip8.set_random(0xC4F0, 0xAB);
    assert_eq!(chip8.get_registers()[4], 0xA0);
    chip8.set_random(0xC40F, 0xAB);
    assert_eq!(chip8.get_registers()[4], 0x0B);
    chip8.set_random(0xC400, 0xFF);
    assert_eq!(chip8.get_registers()[4], 0);
    chip8.set_random(0xC4FF, 0x5A);
    assert_eq!(chip8.get_registers()[4], 0x5A);
    for _ in 0..64 {
        chip8.handle_opcode(0xC503).unwrap();
        assert!(chip8.get_registers()[5] <= 3);
    }
}

#[test]
fn one_seed_draws_one_sequence() {
    let mut first = Chip8::with_seed(42);
    let mut second = Chip8::with_seed(42);
    let mut drawn = Vec::new();
    for _ in 0..64 {
        first.rand(0xC2FF);
        second.rand(0xC2FF);
        assert_eq!(first.get_registers()[2], second.get_registers()[2]);
        drawn.push(first.get_registers()[2]);
    }
    // The generator advances: sixty-four draws are not one byte repeated.
    assert!(drawn.iter().any(|&byte| byte != drawn[0]));
    // Reset does not seed the generator again.
    first.reset();
    second.reset();
    first.rand(0xC2FF);
    second.rand(0xC2FF);
    assert_eq!(first.get_registers()[2], second.get_registers()[2]);
}

#[test]
fn clear_display_reports_a_display_change() {
    let mut chip8 = machine();
    chip8.set_pixel(63, 31, 1);
    chip8.set_pixel(0, 0, 1);
    assert_eq!(chip8.handle_opcode(0x00E0), Ok(Effect::DisplayChanged));
    assert!(chip8.get_screen().iter().all(|&p| p == 0));
}

#[test]
fn draw_reports_a_display_change() {
    let mut chip8 = machine();
    chip8.set_index_register(0x50);
    assert_eq!(chip8.handle_opcode(0xD015), Ok(Effect::DisplayChanged));
    // The glyph of 0 at the top left: F0 90 90 90 F0.
    let rows = [[1, 1, 1, 1], [1, 0, 0, 1], [1, 0, 0, 1], [1, 0, 0, 1], [1, 1, 1, 1]];
    for (y, row) in rows.iter().enumerate() {
        for (x, pixel) in row.iter().enumerate() {
            assert_eq!(chip8.get_pixel(x, y), *pixel);
        }
        for x in 4..8 {
            assert_eq!(chip8.get_pixel(x, y), 0);
        }
    }
    let set: usize = chip8.get_screen().iter().map(|&p| p as usize).sum();
    assert_eq!(set, 14);
}

#[test]
fn draw_anchors_at_register_values_not_register_numbers() {
    let mut chip8 = machine();
    chip8.set_index_register(0x300);
    chip8.set_memory(0x300, 0x80);
    chip8.set_register(4, 20);
    chip8.set_register(9, 7);
    chip8.display_sprite(0xD491).unwrap();
    assert_eq!(chip8.get_pixel(20, 7), 1);
    assert_eq!(chip8.get_pixel(4, 9), 0);
    let set: usize = chip8.get_screen().iter().map(|&p| p as usize).sum();
    assert_eq!(set, 1);
}

#[test]
fn draw_wraps_every_pixel_on_its_own() {
    let mut chip8 = machine();
    chip8.set_index_register(0x300);
    chip8.set_memory(0x300, 0xFF);
    chip8.set_memory(0x301, 0x81);
    chip8.set_register(0, 60);
    chip8.set_register(1, 31);
    chip8.display_sprite(0xD012).unwrap();
    // Row 31: columns 60 to 63, then 0 to 3.
    for x in [60, 61, 62, 63, 0, 1, 2, 3] {
        assert_eq!(chip8.get_pixel(x, 31), 1);
    }
    assert_eq!(chip8.get_pixel(4, 31), 0);
    assert_eq!(chip8.get_pixel(59, 31), 0);
    // The second row wraps to row 0: columns 60 and 3.
    assert_eq!(chip8.get_pixel(60, 0), 1);
    assert_eq!(chip8.get_pixel(3, 0), 1);
    assert_eq!(chip8.get_pixel(61, 0), 0);
    assert_eq!(chip8.get_pixel(0, 0), 0);
    let set: usize = chip8.get_screen().iter().map(|&p| p as usize).sum();
    assert_eq!(set, 10);
    assert_eq!(chip8.get_registers()[15], 0);
}

#[test]
fn draw_wraps_anchors_beyond_the_display() {
    let mut chip8 = machine();
    chip8.set_index_register(0x300);
    chip8.set_memory(0x300, 0x80);
    chip8.set_register(0, 64 + 5);
    chip8.set_register(1, 32 * 7 + 3);
    chip8.display_sprite(0xD011).unwrap();
    assert_eq!(chip8.get_pixel(5, 3), 1);

    let mut chip8 = machine();
    chip8.set_index_register(0x300);
    chip8.set_memory(0x300, 0xFF);
    chip8.set_register(0, 250);
    chip8.set_register(1, 255);
    chip8.display_sprite(0xD011).unwrap();
    // 250 wraps to 58: columns 58 to 63, then 0 and 1, in row 31.
    for x in [58, 59, 60, 61, 62, 63, 0, 1] {
        assert_eq!(chip8.get_pixel(x, 31), 1);
    }
    let set: usize = chip8.get_screen().iter().map(|&p| p as usize).sum();
    assert_eq!(set, 8);
}

#[test]
fn drawing_twice_restores_the_display_and_collides() {
    let mut chip8 = machine();
    chip8.set_pixel(12, 9, 1);
    chip8.set_pixel(40, 20, 1);
    let before = *chip8.get_screen();
    chip8.set_index_register(0x50 + 5 * 0xB);
    chip8.set_register(1, 10);
    chip8.set_register(2, 8);
    chip8.handle_opcode(0xD125).unwrap();
    assert_ne!(*chip8.get_screen(), before);
    chip8.handle_opcode(0xD125).unwrap();
    assert_eq!(*chip8.get_screen(), before);
    assert_eq!(chip8.get_registers()[15], 1);
}

#[test]
fn drawing_an_empty_sprite_twice_never_collides() {
    let mut chip8 = machine();
    chip8.set_index_register(0x300);
    chip8.display_sprite(0xD123).unwrap();
    chip8.display_sprite(0xD123).unwrap();
    assert_eq!(chip8.get_registers()[15], 0);
    assert!(chip8.get_screen().iter().all(|&p| p == 0));
    // A sprite of no rows draws nothing, wherever the index points.
    chip8.set_register(15, 1);
    chip8.set_index_register(0xFFFF);
    assert_eq!(chip8.display_sprite(0xD120), Ok(()));
    assert_eq!(chip8.get_registers()[15], 0);
}

#[test]
fn drawing_on_a_clear_region_never_collides() {
    let mut chip8 = machine();
    // Pixels elsewhere do not matter.
    chip8.set_pixel(0, 0, 1);
    chip8.set_pixel(63, 31, 1);
    chip8.set_register(15, 1);
    chip8.set_index_register(0x50 + 5 * 8);
    chip8.set_register(3, 30);
    chip8.set_register(4, 12);
    chip8.handle_opcode(0xD345).unwrap();
    assert_eq!(chip8.get_registers()[15], 0);
}

#[test]
fn collision_is_found_on_any_pixel_not_only_the_first() {
    let mut chip8 = machine();
    chip8.set_index_register(0x300);
    chip8.set_memory(0x300, 0xFF);
    chip8.set_memory(0x301, 0xFF);
    chip8.set_memory(0x302, 0xFF);
    // Only the last pixel of the last row is set beforehand.
    chip8.set_pixel(7, 2, 1);
    chip8.display_sprite(0xD123).unwrap();
    assert_eq!(chip8.get_registers()[15], 1);
    assert_eq!(chip8.get_pixel(7, 2), 0);
    assert_eq!(chip8.get_pixel(6, 2), 1);

    // Only the first pixel is set beforehand: later pixels do not undo it.
    let mut chip8 = machine();
    chip8.set_index_register(0x300);
    chip8.set_memory(0x300, 0xFF);
    chip8.set_memory(0x301, 0xFF);
    chip8.set_pixel(0, 0, 1);
    chip8.display_sprite(0xD122).unwrap();
    assert_eq!(chip8.get_registers()[15], 1);
}

#[test]
fn sprite_with_clear_bits_over_set_pixels_does_not_collide() {
    let mut chip8 = machine();
    chip8.set_index_register(0x200);
    chip8.set_memory(0x200, 0xA0);
    chip8.set_register(2, 2);
    // 0xA0 is 10100000: set the pixels under the clear bits.
    for x in [3, 5, 6, 7, 8, 9] {
        chip8.set_pixel(x, 2, 1);
    }
    chip8.handle_opcode(0xD221).unwrap();
    assert_eq!(chip8.get_registers()[15], 0);
    for x in 2..10 {
        assert_eq!(chip8.get_pixel(x, 2), 1);
    }
}

#[test]
fn sprite_past_the_end_of_memory_is_out_of_bounds() {
    let mut chip8 = machine();
    chip8.set_register(15, 1);
    chip8.set_index_register(0xFFF);
    assert_eq!(chip8.display_sprite(0xD002), Err(Chip8Error::MemoryOutOfBounds));
    assert_eq!(chip8.get_registers()[15], 1);
    assert!(chip8.get_screen().iter().all(|&p| p == 0));
    // One row still fits.
    chip8.set_memory(0xFFF, 0x80);
    assert_eq!(chip8.display_sprite(0xD001), Ok(()));
    assert_eq!(chip8.get_pixel(0, 0), 1);
}

#[test]
fn xor_pixel_wraps_and_reports_collisions() {
    let mut chip8 = machine();
    assert!(!chip8.xor_pixel(64 + 3, 32 + 4, 1));
    assert_eq!(chip8.get_pixel(3, 4), 1);
    assert!(!chip8.xor_pixel(3, 4, 0));
    assert_eq!(chip8.get_pixel(3, 4), 1);
    assert!(chip8.xor_pixel(3, 4, 1));
    assert_eq!(chip8.get_pixel(3, 4), 0);
    assert!(!chip8.xor_pixel(3, 4, 0));
    assert_eq!(chip8.get_pixel(3, 4), 0);
}

#[test]
fn key_skips_test_the_key_named_by_the_register() {
    let mut chip8 = machine();
    chip8.set_register(1, 0xA);
    // Key A is up.
    chip8.handle_opcode(0xE19E).unwrap();
    assert_eq!(chip8.get_program_counter(), 0x200);
    chip8.handle_opcode(0xE1A1).unwrap();
    assert_eq!(chip8.get_program_counter(), 0x202);
    // Key A is down.
    chip8.set_key(0xA, true);
    assert!(chip8.get_key_state(0xA));
    assert!(!chip8.get_key_state(1));
    chip8.skip_if_key_state(0xE19E).unwrap();
    assert_eq!(chip8.get_program_counter(), 0x204);
    chip8.skip_if_key_state(0xE1A1).unwrap();
    assert_eq!(chip8.get_program_counter(), 0x204);
    chip8.set_key(0xA, false);
    assert!(!chip8.get_key_state(0xA));
    assert!(chip8.get_keys().iter().all(|&k| !k));
}

#[test]
fn register_value_above_fifteen_names_no_key() {
    let mut chip8 = machine();
    for key in 0..16 {
        chip8.set_key(key, true);
    }
    chip8.set_register(1, 16);
    chip8.handle_opcode(0xE19E).unwrap();
    assert_eq!(chip8.get_program_counter(), 0x200);
    chip8.handle_opcode(0xE1A1).unwrap();
    assert_eq!(chip8.get_program_counter(), 0x202);
    chip8.set_register(1, 255);
    chip8.handle_opcode(0xE19E).unwrap();
    assert_eq!(chip8.get_program_counter(), 0x202);
}

#[test]
fn key_wait_suspends_until_a_key_is_pressed() {
    let mut chip8 = machine();
    // 0x200: wait for a key into V5; 0x202: V1 = 0x11.
    chip8.load(&[0xF5, 0x0A, 0x61, 0x11]).unwrap();
    chip8.set_register(0, 3);
    chip8.handle_opcode(0xF015).unwrap();
    // A key that is already down is no key press.
    chip8.set_key(2, true);

    assert_eq!(chip8.tick(), Ok(Effect::WaitingForKey(5)));
    assert_eq!(chip8.get_waiting(), Some(5));
    assert_eq!(chip8.get_program_counter(), 0x202);
    assert_eq!(chip8.get_delay_timer(), 2);

    // Ticks make no progress, but the timers go on.
    assert_eq!(chip8.tick(), Ok(Effect::WaitingForKey(5)));
    assert_eq!(chip8.tick(), Ok(Effect::WaitingForKey(5)));
    assert_eq!(chip8.tick(), Ok(Effect::WaitingForKey(5)));
    assert_eq!(chip8.get_program_counter(), 0x202);
    assert_eq!(chip8.get_registers()[1], 0);
    assert_eq!(chip8.get_registers()[5], 0);
    assert_eq!(chip8.get_delay_timer(), 0);

    // A release does not end the wait.
    chip8.set_key(2, false);
    assert_eq!(chip8.get_waiting(), Some(5));

    chip8.set_key(0xC, true);
    assert_eq!(chip8.get_waiting(), None);
    assert_eq!(chip8.get_registers()[5], 0xC);
    assert!(chip8.get_key_state(0xC));

    assert_eq!(chip8.tick(), Ok(Effect::Nothing));
    assert_eq!(chip8.get_registers()[1], 0x11);
    assert_eq!(chip8.get_program_counter(), 0x204);
}

#[test]
fn add_register_to_index() {
    let mut chip8 = machine();
    chip8.set_index_register(0x100);
    chip8.set_register(3, 0x23);
    assert_eq!(chip8.handle_opcode(0xF31E), Ok(Effect::Nothing));
    assert_eq!(chip8.get_index_register(), 0x123);
    // The index may leave memory; it may not leave its sixteen bits.
    chip8.set_index_register(0xFFFF - 0x23);
    assert_eq!(chip8.handle_opcode(0xF31E), Ok(Effect::Nothing));
    assert_eq!(chip8.get_index_register(), 0xFFFF);
    chip8.set_register(3, 1);
    assert_eq!(chip8.handle_opcode(0xF31E), Err(Chip8Error::MemoryOutOfBounds));
    assert_eq!(chip8.get_index_register(), 0xFFFF);
}

#[test]
fn glyph_address_is_font_start_plus_five_times_digit() {
    for digit in 0..16u8 {
        let mut chip8 = machine();
        chip8.set_register(7, digit);
        chip8.handle_opcode(0xF729).unwrap();
        assert_eq!(chip8.get_index_register(), 0x50 + 5 * digit as u16);
    }
    let mut chip8 = machine();
    chip8.set_register(7, 0xF);
    chip8.handle_opcode(0xF729).unwrap();
    assert_eq!(chip8.get_index_register(), 0x9B);
    chip8.set_register(7, 255);
    chip8.handle_opcode(0xF729).unwrap();
    assert_eq!(chip8.get_index_register(), 0x50 + 1275);
}

#[test]
fn decimal_digits_of_157() {
    let mut chip8 = machine();
    chip8.set_register(6, 157);
    chip8.set_index_register(0x400);
    chip8.handle_opcode(0xF633).unwrap();
    assert_eq!(chip8.get_memory()[0x400], 1);
    assert_eq!(chip8.get_memory()[0x401], 5);
    assert_eq!(chip8.get_memory()[0x402], 7);
    assert_eq!(chip8.get_memory()[0x403], 0);
    assert_eq!(chip8.get_index_register(), 0x400);
}

#[test]
fn decimal_digits_of_every_byte() {
    for value in 0..=255u8 {
        let mut chip8 = machine();
        chip8.set_register(0, value);
        chip8.set_index_register(0xFFD);
        chip8.handle_opcode(0xF033).unwrap();
        let memory = chip8.get_memory();
        assert_eq!(memory[0xFFD], value / 100);
        assert_eq!(memory[0xFFE], value / 10 % 10);
        assert_eq!(memory[0xFFF], value % 10);
    }
}

#[test]
fn decimal_digits_past_the_end_of_memory_are_out_of_bounds() {
    let mut chip8 = machine();
    chip8.set_register(0, 255);
    chip8.set_index_register(0xFFE);
    assert_eq!(chip8.handle_opcode(0xF033), Err(Chip8Error::MemoryOutOfBounds));
    assert_eq!(chip8.get_memory()[0xFFE], 0);
    assert_eq!(chip8.get_memory()[0xFFF], 0);
}

#[test]
fn store_then_load_round_trips() {
    for x in 0..16usize {
        let mut chip8 = machine();
        for i in 0..16 {
            chip8.set_register(i, 0x10 + i as u8);
        }
        chip8.set_index_register(0x300);
        chip8.handle_opcode(0xF055 | (x as u16) << 8).unwrap();
        assert_eq!(chip8.get_index_register(), 0x300 + x as u16 + 1);
        for i in 0..16 {
            let expected = if i <= x { 0x10 + i as u8 } else { 0 };
            assert_eq!(chip8.get_memory()[0x300 + i], expected);
        }

        for i in 0..16 {
            chip8.set_register(i, 0xEE);
        }
        chip8.set_index_register(0x300);
        chip8.handle_opcode(0xF065 | (x as u16) << 8).unwrap();
        assert_eq!(chip8.get_index_register(), 0x300 + x as u16 + 1);
        for i in 0..16 {
            let expected = if i <= x { 0x10 + i as u8 } else { 0xEE };
            assert_eq!(chip8.get_registers()[i], expected);
        }
    }
}

#[test]
fn store_and_load_past_the_end_of_memory_are_out_of_bounds() {
    let mut chip8 = machine();
    chip8.set_register(0, 1);
    chip8.set_register(1, 2);
    chip8.set_index_register(0xFFF);
    assert_eq!(chip8.handle_opcode(0xF155), Err(Chip8Error::MemoryOutOfBounds));
    assert_eq!(chip8.get_memory()[0xFFF], 0);
    assert_eq!(chip8.get_index_register(), 0xFFF);
    assert_eq!(chip8.handle_opcode(0xF165), Err(Chip8Error::MemoryOutOfBounds));
    assert_eq!(chip8.get_registers()[0], 1);
    // The last byte of memory can still be reached.
    assert_eq!(chip8.handle_opcode(0xF055), Ok(Effect::Nothing));
    assert_eq!(chip8.get_memory()[0xFFF], 1);
    assert_eq!(chip8.get_index_register(), 0x1000);
    assert_eq!(chip8.handle_opcode(0xF055), Err(Chip8Error::MemoryOutOfBounds));
}

#[test]
fn three_instruction_scenario() {
    let mut chip8 = machine();
    chip8.handle_opcode(0x6A42).unwrap();
    assert_eq!(chip8.get_registers()[10], 0x42);

    chip8.set_register(2, 200);
    chip8.set_register(3, 100);
    chip8.handle_opcode(0x8234).unwrap();
    assert_eq!(chip8.get_registers()[2], 44);
    assert_eq!(chip8.get_registers()[15], 1);
}

#[test]
fn machines_share_no_state() {
    let mut first = machine();
    let second = machine();
    first.handle_opcode(0x6A42).unwrap();
    first.set_pixel(1, 1, 1);
    first.set_key(3, true);
    assert_eq!(second.get_registers()[10], 0);
    assert_eq!(second.get_pixel(1, 1), 0);
    assert!(!second.get_key_state(3));
}

/// The first `count` bytes that the machine draws.
fn draws(chip8: &mut Chip8, count: usize) -> Vec<u8> {
    let mut bytes = Vec::new();
    for _ in 0..count {
        chip8.rand(0xC2FF);
        bytes.push(chip8.get_registers()[2]);
    }
    bytes
}

#[test]
fn seed_fixes_the_generator() {
    // A machine built from a seed draws what a machine draws that was built
    // around the generator of that seed.
    let mut seeded = Chip8::with_seed(7);
    let mut given = Chip8::with_generator(SmallRng::seed_from_u64(7));
    assert_eq!(draws(&mut seeded, 32), draws(&mut given, 32));
    // Another seed is another generator.
    let mut first = Chip8::with_seed(1);
    let mut second = Chip8::with_seed(2);
    assert_ne!(draws(&mut first, 32), draws(&mut second, 32));
}

#[test]
fn machine_around_a_generator_is_in_its_initial_state() {
    let chip8 = Chip8::with_generator(SmallRng::seed_from_u64(3));
    let fresh = machine();
    assert_eq!(chip8.get_memory(), fresh.get_memory());
    assert_eq!(chip8.get_registers(), fresh.get_registers());
    assert_eq!(chip8.get_screen(), fresh.get_screen());
    assert_eq!(chip8.get_program_counter(), 0x200);
    assert_eq!(chip8.get_stack_limit(), 16);
    assert!(chip8.get_stack().is_empty());
    assert_eq!(chip8.get_waiting(), None);
}
