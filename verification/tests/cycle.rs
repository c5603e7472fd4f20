use chip8::cpu::Processor;
use chip8::fault::{Fault, FaultKind};
use chip8::font::FONTSET;

fn loaded(program: &[u8]) -> Processor {
    let mut chip = Processor::new();
    chip.load_state(program).unwrap();
    chip
}

fn run(chip: &mut Processor, cycles: usize) {
    for _ in 0..cycles {
        chip.tick_with(0).unwrap();
    }
}

fn lit_cells(chip: &Processor) -> Vec<usize> {
    let display = chip.get_display();
    (0..display.len()).filter(|&p| display[p]).collect()
}

#[test]
fn load_then_add_gives_eight_at_0x204() {
    let mut chip = loaded(&[0x60, 0x05, 0x70, 0x03]);
    chip.tick().unwrap();
    chip.tick().unwrap();
    assert_eq!(chip.registers()[0], 8);
    assert_eq!(chip.program_counter(), 0x204);
}

#[test]
fn new_processor_holds_font_and_nothing_else() {
    let chip = Processor::new();
    assert_eq!(&chip.memory()[..80], &FONTSET[..]);
    assert!(chip.memory()[80..].iter().all(|&b| b == 0));
    assert_eq!(chip.memory().len(), 4096);
    assert_eq!(chip.program_counter(), 0x200);
    assert_eq!(chip.index_register(), 0);
    assert_eq!(chip.registers(), &[0u8; 16][..]);
    assert_eq!(chip.stack_depth(), 0);
    assert_eq!(chip.delay_timer(), 0);
    assert_eq!(chip.sound_timer(), 0);
    assert_eq!(chip.get_display().len(), 2048);
    assert!(chip.get_display().iter().all(|&p| !p));
}

#[test]
fn font_glyphs_are_the_usual_ones() {
    assert_eq!(&FONTSET[0..5], &[0xF0, 0x90, 0x90, 0x90, 0xF0]);
    assert_eq!(&FONTSET[5..10], &[0x20, 0x60, 0x20, 0x20, 0x70]);
    assert_eq!(&FONTSET[75..80], &[0xF0, 0x80, 0xF0, 0x80, 0x80]);
}

#[test]
fn nop_only_advances() {
    let mut chip = loaded(&[0x00, 0x00]);
    chip.tick_with(0).unwrap();
    assert_eq!(chip.program_counter(), 0x202);
    assert_eq!(chip.registers(), &[0u8; 16][..]);
}

#[test]
fn jump_sets_program_counter() {
    let mut chip = loaded(&[0x1A, 0xBC]);
    chip.tick_with(0).unwrap();
    assert_eq!(chip.program_counter(), 0xABC);
}

#[test]
fn call_pushes_address_after_the_call_and_return_pops_it() {
    // 0x200: call 0x206; 0x206: return
    let mut chip = loaded(&[0x22, 0x06, 0x00, 0x00, 0x00, 0x00, 0x00, 0xEE]);
    chip.tick_with(0).unwrap();
    assert_eq!(chip.program_counter(), 0x206);
    assert_eq!(chip.stack_depth(), 1);
    chip.tick_with(0).unwrap();
    assert_eq!(chip.program_counter(), 0x202);
    assert_eq!(chip.stack_depth(), 0);
}

#[test]
fn nested_calls_return_innermost_first() {
    // 0x200: call 0x204; 0x202: nop; 0x204: call 0x208; 0x206: return; 0x208: return
    let mut chip = loaded(&[0x22, 0x04, 0x00, 0x00, 0x22, 0x08, 0x00, 0xEE, 0x00, 0xEE]);
    run(&mut chip, 2);
    assert_eq!(chip.stack_depth(), 2);
    assert_eq!(chip.program_counter(), 0x208);
    chip.tick_with(0).unwrap();
    assert_eq!(chip.program_counter(), 0x206);
    chip.tick_with(0).unwrap();
    assert_eq!(chip.program_counter(), 0x202);
    assert_eq!(chip.stack_depth(), 0);
}

#[test]
fn jump_offset_adds_register_zero() {
    let mut chip = loaded(&[0x60, 0xFF, 0xBF, 0xFF]);
    run(&mut chip, 2);
    assert_eq!(chip.program_counter(), 0xFF + 0xFFF);
}

#[test]
fn load_index_and_add_index() {
    let mut chip = loaded(&[0xA1, 0x23, 0x63, 0x10, 0xF3, 0x1E]);
    run(&mut chip, 3);
    assert_eq!(chip.index_register(), 0x133);
}

#[test]
fn add_index_wraps_at_65536() {
    // I = 0xFFF; V0 = 0xFF; then I += V0 again and again.
    let mut chip = loaded(&[0xAF, 0xFF, 0x60, 0xFF, 0xF0, 0x1E, 0x12, 0x04]);
    run(&mut chip, 2);
    for _ in 0..241 {
        chip.tick_with(0).unwrap();
        chip.tick_with(0).unwrap();
    }
    assert_eq!(chip.index_register(), ((0xFFFu32 + 241 * 0xFF) % 65536) as u16);
    assert_eq!(chip.index_register(), 14);
}

#[test]
fn glyph_address_is_five_times_the_digit() {
    let mut chip = loaded(&[0x6A, 0x0B, 0xFA, 0x29, 0x6A, 0xFF, 0xFA, 0x29]);
    run(&mut chip, 2);
    assert_eq!(chip.index_register(), 55);
    run(&mut chip, 2);
    assert_eq!(chip.index_register(), 1275);
}

#[test]
fn skip_equal_immediate_advances_four_or_two() {
    let mut chip = loaded(&[0x61, 0x2A, 0x31, 0x2A]);
    run(&mut chip, 2);
    assert_eq!(chip.program_counter(), 0x202 + 4);
    let mut chip = loaded(&[0x61, 0x2A, 0x31, 0x2B]);
    run(&mut chip, 2);
    assert_eq!(chip.program_counter(), 0x202 + 2);
}

#[test]
fn skip_not_equal_immediate_advances_four_or_two() {
    let mut chip = loaded(&[0x61, 0x2A, 0x41, 0x2B]);
    run(&mut chip, 2);
    assert_eq!(chip.program_counter(), 0x202 + 4);
    let mut chip = loaded(&[0x61, 0x2A, 0x41, 0x2A]);
    run(&mut chip, 2);
    assert_eq!(chip.program_counter(), 0x202 + 2);
}

#[test]
fn skip_equal_registers_advances_four_or_two() {
    let mut chip = loaded(&[0x61, 0x07, 0x62, 0x07, 0x51, 0x20]);
    run(&mut chip, 3);
    assert_eq!(chip.program_counter(), 0x204 + 4);
    let mut chip = loaded(&[0x61, 0x07, 0x62, 0x08, 0x51, 0x20]);
    run(&mut chip, 3);
    assert_eq!(chip.program_counter(), 0x204 + 2);
}

#[test]
fn skip_not_equal_registers_advances_four_or_two() {
    let mut chip = loaded(&[0x61, 0x07, 0x62, 0x08, 0x91, 0x20]);
    run(&mut chip, 3);
    assert_eq!(chip.program_counter(), 0x204 + 4);
    let mut chip = loaded(&[0x61, 0x07, 0x62, 0x07, 0x91, 0x20]);
    run(&mut chip, 3);
    assert_eq!(chip.program_counter(), 0x204 + 2);
}

#[test]
fn skip_key_down_advances_four_or_two() {
    let mut chip = loaded(&[0x63, 0x0A, 0xE3, 0x9E]);
    chip.key_input(0xA, true).unwrap();
    run(&mut chip, 2);
    assert_eq!(chip.program_counter(), 0x202 + 4);
    let mut chip = loaded(&[0x63, 0x0A, 0xE3, 0x9E]);
    chip.key_input(0xB, true).unwrap();
    run(&mut chip, 2);
    assert_eq!(chip.program_counter(), 0x202 + 2);
}

#[test]
fn skip_key_up_advances_four_or_two() {
    let mut chip = loaded(&[0x63, 0x0A, 0xE3, 0xA1]);
    run(&mut chip, 2);
    assert_eq!(chip.program_counter(), 0x202 + 4);
    let mut chip = loaded(&[0x63, 0x0A, 0xE3, 0xA1]);
    chip.key_input(0xA, true).unwrap();
    run(&mut chip, 2);
    assert_eq!(chip.program_counter(), 0x202 + 2);
}

#[test]
fn released_key_no_longer_counts_as_down() {
    let mut chip = loaded(&[0x63, 0x0A, 0xE3, 0x9E]);
    chip.key_input(0xA, true).unwrap();
    chip.key_input(0xA, false).unwrap();
    run(&mut chip, 2);
    assert_eq!(chip.program_counter(), 0x202 + 2);
}

#[test]
fn add_immediate_wraps_without_flag() {
    let mut chip = loaded(&[0x6F, 0x07, 0x65, 0xF0, 0x75, 0x20]);
    run(&mut chip, 3);
    assert_eq!(chip.registers()[5], 0x10);
    assert_eq!(chip.registers()[0xF], 0x07);
}

#[test]
fn add_registers_sets_carry() {
    let mut chip = loaded(&[0x61, 0xFF, 0x62, 0x02, 0x81, 0x24]);
    run(&mut chip, 3);
    assert_eq!(chip.registers()[1], 0x01);
    assert_eq!(chip.registers()[0xF], 1);
    let mut chip = loaded(&[0x6F, 0x01, 0x61, 0xF0, 0x62, 0x0F, 0x81, 0x24]);
    run(&mut chip, 4);
    assert_eq!(chip.registers()[1], 0xFF);
    assert_eq!(chip.registers()[0xF], 0);
}

#[test]
fn subtract_sets_flag_unless_borrow() {
    let mut chip = loaded(&[0x61, 0x05, 0x62, 0x05, 0x81, 0x25]);
    run(&mut chip, 3);
    assert_eq!(chip.registers()[1], 0);
    assert_eq!(chip.registers()[0xF], 1);
    let mut chip = loaded(&[0x61, 0x05, 0x62, 0x06, 0x81, 0x25]);
    run(&mut chip, 3);
    assert_eq!(chip.registers()[1], 0xFF);
    assert_eq!(chip.registers()[0xF], 0);
}

#[test]
fn subtract_from_sets_flag_unless_borrow() {
    let mut chip = loaded(&[0x61, 0x05, 0x62, 0x09, 0x81, 0x27]);
    run(&mut chip, 3);
    assert_eq!(chip.registers()[1], 4);
    assert_eq!(chip.registers()[2], 9);
    assert_eq!(chip.registers()[0xF], 1);
    let mut chip = loaded(&[0x61, 0x09, 0x62, 0x05, 0x81, 0x27]);
    run(&mut chip, 3);
    assert_eq!(chip.registers()[1], 0xFC);
    assert_eq!(chip.registers()[0xF], 0);
}

#[test]
fn flag_wins_where_the_target_is_the_flag_register() {
    // VF = 0xF0; V1 = 0x20; VF += V1 overflows: VF holds the carry, not the sum.
    let mut chip = loaded(&[0x6F, 0xF0, 0x61, 0x20, 0x8F, 0x14]);
    run(&mut chip, 3);
    assert_eq!(chip.registers()[0xF], 1);
}

#[test]
fn shift_right_flags_lowest_bit() {
    let mut chip = loaded(&[0x61, 0x05, 0x81, 0x06]);
    run(&mut chip, 2);
    assert_eq!(chip.registers()[1], 2);
    assert_eq!(chip.registers()[0xF], 1);
    let mut chip = loaded(&[0x6F, 0x01, 0x61, 0x04, 0x81, 0x06]);
    run(&mut chip, 3);
    assert_eq!(chip.registers()[1], 2);
    assert_eq!(chip.registers()[0xF], 0);
}

#[test]
fn shift_left_flags_highest_bit() {
    let mut chip = loaded(&[0x61, 0x81, 0x81, 0x0E]);
    run(&mut chip, 2);
    assert_eq!(chip.registers()[1], 0x02);
    assert_eq!(chip.registers()[0xF], 1);
    let mut chip = loaded(&[0x6F, 0x01, 0x61, 0x41, 0x81, 0x0E]);
    run(&mut chip, 3);
    assert_eq!(chip.registers()[1], 0x82);
    assert_eq!(chip.registers()[0xF], 0);
}

#[test]
fn shift_of_the_flag_register_keeps_the_dropped_bit() {
    let mut chip = loaded(&[0x6F, 0x03, 0x8F, 0x06]);
    run(&mut chip, 2);
    assert_eq!(chip.registers()[0xF], 1);
    let mut chip = loaded(&[0x6F, 0x7F, 0x8F, 0x0E]);
    run(&mut chip, 2);
    assert_eq!(chip.registers()[0xF], 0);
}

#[test]
fn move_or_and_xor_leave_the_flag_alone() {
    let mut chip = loaded(&[
        0x6F, 0x09, 0x61, 0x0C, 0x62, 0x0A, 0x83, 0x20, 0x84, 0x10, 0x84, 0x21, 0x85, 0x10, 0x85,
        0x22, 0x86, 0x10, 0x86, 0x23,
    ]);
    run(&mut chip, 10);
    assert_eq!(chip.registers()[3], 0x0A);
    assert_eq!(chip.registers()[4], 0x0E);
    assert_eq!(chip.registers()[5], 0x08);
    assert_eq!(chip.registers()[6], 0x06);
    assert_eq!(chip.registers()[0xF], 0x09);
}

#[test]
fn random_is_masked_by_the_constant() {
    let mut chip = loaded(&[0xC1, 0xF0]);
    chip.tick_with(0xAB).unwrap();
    assert_eq!(chip.registers()[1], 0xA0);
    assert_eq!(chip.program_counter(), 0x202);
}

#[test]
fn random_from_the_generator_stays_within_the_mask() {
    // C0 0F; jump back.
    let mut chip = loaded(&[0xC0, 0x0F, 0x12, 0x00]);
    for _ in 0..200 {
        chip.tick().unwrap();
        assert!(chip.registers()[0] <= 0x0F);
        chip.tick().unwrap();
    }
}

#[test]
fn random_with_zero_mask_is_zero() {
    let mut chip = loaded(&[0x60, 0x55, 0xC0, 0x00]);
    chip.tick().unwrap();
    chip.tick().unwrap();
    assert_eq!(chip.registers()[0], 0);
}

#[test]
fn bcd_of_234_is_2_3_4() {
    let mut chip = loaded(&[0x63, 234, 0xA3, 0x00, 0xF3, 0x33]);
    run(&mut chip, 3);
    assert_eq!(&chip.memory()[0x300..0x303], &[2, 3, 4]);
}

#[test]
fn bcd_of_5_is_0_0_5() {
    let mut chip = loaded(&[0x63, 5, 0xA3, 0x00, 0xF3, 0x33]);
    run(&mut chip, 3);
    assert_eq!(&chip.memory()[0x300..0x303], &[0, 0, 5]);
}

#[test]
fn bcd_of_255_and_of_100() {
    let mut chip = loaded(&[0x63, 255, 0xA3, 0x00, 0xF3, 0x33, 0x63, 100, 0xA3, 0x10, 0xF3, 0x33]);
    run(&mut chip, 6);
    assert_eq!(&chip.memory()[0x300..0x303], &[2, 5, 5]);
    assert_eq!(&chip.memory()[0x310..0x313], &[1, 0, 0]);
    assert_eq!(chip.memory()[0x303], 0);
    assert_eq!(chip.memory()[0x2FF], 0);
}

#[test]
fn store_then_load_into_zeroed_registers_gives_the_values_back() {
    // V0..V3 = 0x11, 0x22, 0x33, 0x44; I = 0x400; store V0..=V2;
    // zero V0..V3; load V0..=V2.
    let mut chip = loaded(&[
        0x60, 0x11, 0x61, 0x22, 0x62, 0x33, 0x63, 0x44, 0xA4, 0x00, 0xF2, 0x55, 0x60, 0x00, 0x61,
        0x00, 0x62, 0x00, 0x63, 0x00, 0xF2, 0x65,
    ]);
    run(&mut chip, 6);
    assert_eq!(&chip.memory()[0x400..0x404], &[0x11, 0x22, 0x33, 0x00]);
    assert_eq!(chip.index_register(), 0x400);
    run(&mut chip, 4);
    assert_eq!(&chip.registers()[0..4], &[0, 0, 0, 0]);
    run(&mut chip, 1);
    assert_eq!(&chip.registers()[0..4], &[0x11, 0x22, 0x33, 0x00]);
    assert_eq!(chip.index_register(), 0x400);
}

#[test]
fn store_and_load_of_all_sixteen_registers() {
    let mut program = Vec::new();
    for x in 0..16u8 {
        program.push(0x60 | x);
        program.push(0xA0 + x);
    }
    program.extend_from_slice(&[0xA5, 0x00, 0xFF, 0x55]);
    let mut chip = loaded(&program);
    run(&mut chip, 18);
    let expected: Vec<u8> = (0..16u8).map(|x| 0xA0 + x).collect();
    assert_eq!(&chip.memory()[0x500..0x510], &expected[..]);
    let mut other = loaded(&[0xA5, 0x00, 0xFF, 0x65]);
    let image: Vec<u8> = chip.memory()[0x200..0x510].to_vec();
    other.load_state(&image).unwrap();
    other.load_state(&[0xA5, 0x00, 0xFF, 0x65]).unwrap();
    run(&mut other, 2);
    assert_eq!(other.registers(), &expected[..]);
}

#[test]
fn delay_timer_is_set_and_read() {
    let mut chip = loaded(&[0x62, 0x2C, 0xF2, 0x15, 0xF5, 0x07]);
    run(&mut chip, 2);
    assert_eq!(chip.delay_timer(), 0x2C);
    chip.tick_timers();
    run(&mut chip, 1);
    assert_eq!(chip.registers()[5], 0x2B);
}

#[test]
fn sound_timer_is_set_from_the_first_operand() {
    // V1 = 9, V2 = 7; F218 takes V2.
    let mut chip = loaded(&[0x61, 0x09, 0x62, 0x07, 0xF2, 0x18]);
    run(&mut chip, 3);
    assert_eq!(chip.sound_timer(), 7);
    assert_eq!(chip.delay_timer(), 0);
}

#[test]
fn timers_count_down_to_zero_and_stay() {
    let mut chip = loaded(&[0x60, 0x02, 0xF0, 0x15, 0x61, 0x01, 0xF1, 0x18]);
    run(&mut chip, 4);
    assert_eq!((chip.delay_timer(), chip.sound_timer()), (2, 1));
    chip.tick_timers();
    assert_eq!((chip.delay_timer(), chip.sound_timer()), (1, 0));
    chip.tick_timers();
    assert_eq!((chip.delay_timer(), chip.sound_timer()), (0, 0));
    chip.tick_timers();
    assert_eq!((chip.delay_timer(), chip.sound_timer()), (0, 0));
}

#[test]
fn tick_leaves_timers_alone() {
    let mut chip = loaded(&[0x60, 0x02, 0xF0, 0x15, 0x00, 0x00, 0x00, 0x00]);
    run(&mut chip, 4);
    assert_eq!(chip.delay_timer(), 2);
}

#[test]
fn wait_key_blocks_until_a_key_then_takes_the_lowest() {
    let mut chip = loaded(&[0x64, 0x77, 0xF4, 0x0A]);
    run(&mut chip, 1);
    for _ in 0..10 {
        chip.tick().unwrap();
        assert_eq!(chip.program_counter(), 0x202);
        assert_eq!(chip.registers()[4], 0x77);
    }
    chip.key_input(0xC, true).unwrap();
    chip.key_input(0x3, true).unwrap();
    chip.key_input(0x9, true).unwrap();
    chip.tick().unwrap();
    assert_eq!(chip.program_counter(), 0x204);
    assert_eq!(chip.registers()[4], 0x3);
}

#[test]
fn wait_key_takes_key_zero_and_key_fifteen() {
    let mut chip = loaded(&[0xF4, 0x0A]);
    chip.key_input(0xF, true).unwrap();
    chip.tick().unwrap();
    assert_eq!(chip.registers()[4], 0xF);
    let mut chip = loaded(&[0x64, 0x05, 0xF4, 0x0A]);
    chip.key_input(0x0, true).unwrap();
    chip.key_input(0xF, true).unwrap();
    run(&mut chip, 2);
    assert_eq!(chip.registers()[4], 0x0);
    assert_eq!(chip.program_counter(), 0x204);
}

#[test]
fn sprite_at_column_60_wraps_to_columns_0_to_3() {
    // V0 = 60, V1 = 5, I = 0x300 where the byte 0xFF was stored through V2.
    let mut chip = loaded(&[
        0x62, 0xFF, 0xA3, 0x00, 0xF2, 0x55, 0x60, 60, 0x61, 5, 0xD0, 0x11,
    ]);
    // F255 stores V0..=V2, so 0x302 holds 0xFF; point I there before drawing.
    run(&mut chip, 3);
    assert_eq!(chip.memory()[0x302], 0xFF);
    let mut chip = loaded(&[
        0x62, 0xFF, 0xA3, 0x00, 0xF2, 0x55, 0xA3, 0x02, 0x60, 60, 0x61, 5, 0xD0, 0x11,
    ]);
    run(&mut chip, 7);
    let row = 5 * 64;
    let expected: Vec<usize> = vec![row, row + 1, row + 2, row + 3, row + 60, row + 61, row + 62, row + 63];
    assert_eq!(lit_cells(&chip), expected);
    assert_eq!(chip.registers()[0xF], 0);
}

#[test]
fn sprite_wraps_from_the_bottom_row_to_the_top() {
    // Glyph "1" (0x20, 0x60, 0x20, 0x20, 0x70) at column 0, row 30.
    let mut chip = loaded(&[0x60, 0x01, 0xF0, 0x29, 0x60, 0x00, 0x61, 30, 0xD0, 0x15]);
    run(&mut chip, 5);
    let expected: Vec<usize> = vec![
        2,
        64 + 2,
        2 * 64 + 1,
        2 * 64 + 2,
        2 * 64 + 3,
        30 * 64 + 2,
        31 * 64 + 1,
        31 * 64 + 2,
    ];
    assert_eq!(lit_cells(&chip), expected);
}

#[test]
fn coordinates_beyond_the_screen_wrap() {
    // Column 64 + 3 and row 32 + 2 are column 3 and row 2.
    let mut chip = loaded(&[0x60, 67, 0x61, 34, 0xA0, 0x00, 0xD0, 0x11]);
    run(&mut chip, 4);
    // Row 0 of glyph "0" is 0xF0.
    assert_eq!(lit_cells(&chip), vec![2 * 64 + 3, 2 * 64 + 4, 2 * 64 + 5, 2 * 64 + 6]);
}

#[test]
fn drawing_twice_restores_the_screen_and_flags_collision() {
    // Glyph "0" at (10, 10), then glyph "8" over it, twice.
    let mut chip = loaded(&[
        0x60, 10, 0x61, 10, 0xA0, 0x00, 0xD0, 0x15, 0xA0, 40, 0xD0, 0x15, 0xD0, 0x15,
    ]);
    run(&mut chip, 4);
    assert_eq!(chip.registers()[0xF], 0);
    let before: Vec<bool> = chip.get_display().to_vec();
    assert_eq!(lit_cells(&chip).len(), 14);
    run(&mut chip, 2);
    // "8" differs from "0" in the middle row only: 0xF0 against 0x90.
    assert_eq!(chip.registers()[0xF], 1);
    assert_eq!(lit_cells(&chip), vec![12 * 64 + 11, 12 * 64 + 12]);
    run(&mut chip, 1);
    assert_eq!(chip.get_display(), &before[..]);
    assert_eq!(chip.registers()[0xF], 1);
}

#[test]
fn drawing_on_a_blank_screen_twice_blanks_it_again() {
    let mut chip = loaded(&[0x60, 62, 0x61, 31, 0xA0, 0x05, 0xD0, 0x15, 0xD0, 0x15]);
    run(&mut chip, 4);
    assert_eq!(chip.registers()[0xF], 0);
    assert!(!lit_cells(&chip).is_empty());
    run(&mut chip, 1);
    assert!(lit_cells(&chip).is_empty());
    assert_eq!(chip.registers()[0xF], 1);
}

#[test]
fn sprite_without_rows_draws_nothing_and_clears_the_flag() {
    let mut chip = loaded(&[0x6F, 0x01, 0xAF, 0xFF, 0xD0, 0x10]);
    run(&mut chip, 3);
    assert!(lit_cells(&chip).is_empty());
    assert_eq!(chip.registers()[0xF], 0);
}

#[test]
fn clear_screen_switches_every_pixel_off() {
    let mut chip = loaded(&[0xA0, 0x00, 0xD0, 0x15, 0x00, 0xE0]);
    run(&mut chip, 2);
    assert!(!lit_cells(&chip).is_empty());
    run(&mut chip, 1);
    assert!(lit_cells(&chip).is_empty());
    assert_eq!(chip.program_counter(), 0x206);
}

#[test]
fn reset_restores_the_initial_state() {
    let mut chip = loaded(&[
        0x60, 0x09, 0xF0, 0x15, 0xF0, 0x18, 0xA2, 0x00, 0xD0, 0x05, 0x22, 0x0C, 0xF0, 0x55,
    ]);
    chip.key_input(3, true).unwrap();
    run(&mut chip, 7);
    assert_eq!(chip.stack_depth(), 1);
    chip.reset();
    let fresh = Processor::new();
    assert_eq!(chip.memory(), fresh.memory());
    assert_eq!(chip.get_display(), fresh.get_display());
    assert_eq!(chip.registers(), fresh.registers());
    assert_eq!(chip.program_counter(), 0x200);
    assert_eq!(chip.index_register(), 0);
    assert_eq!(chip.stack_depth(), 0);
    assert_eq!(chip.delay_timer(), 0);
    assert_eq!(chip.sound_timer(), 0);
    // No key is held down any more: a key wait blocks.
    chip.load_state(&[0xF0, 0x0A]).unwrap();
    chip.tick().unwrap();
    assert_eq!(chip.program_counter(), 0x200);
}

#[test]
fn unknown_instruction_faults_and_changes_nothing() {
    let mut chip = loaded(&[0x61, 0x01, 0x51, 0x21]);
    run(&mut chip, 1);
    let r = chip.tick();
    assert_eq!(
        r,
        Err(Fault { kind: FaultKind::UnknownInstruction, address: 0x202, opcode: 0x5121 })
    );
    assert_eq!(chip.program_counter(), 0x202);
    assert_eq!(chip.registers()[1], 1);
    assert_eq!(chip.tick(), r);
}

#[test]
fn words_outside_the_table_fault() {
    for word in [0x0001u16, 0x00E1, 0x0123, 0x5AB1, 0x8AB8, 0x8ABF, 0x9AB1, 0xE09F, 0xE0A0, 0xF000, 0xF0FF, 0xF056] {
        let mut chip = loaded(&[(word >> 8) as u8, word as u8]);
        assert_eq!(
            chip.tick(),
            Err(Fault { kind: FaultKind::UnknownInstruction, address: 0x200, opcode: word })
        );
    }
}

#[test]
fn return_without_call_faults() {
    let mut chip = loaded(&[0x00, 0xEE]);
    assert_eq!(
        chip.tick(),
        Err(Fault { kind: FaultKind::StackUnderflow, address: 0x200, opcode: 0x00EE })
    );
    assert_eq!(chip.program_counter(), 0x200);
    assert_eq!(chip.stack_depth(), 0);
}

#[test]
fn seventeenth_nested_call_faults() {
    // call 0x200 at 0x200: calls itself for ever.
    let mut chip = loaded(&[0x22, 0x00]);
    run(&mut chip, 16);
    assert_eq!(chip.stack_depth(), 16);
    assert_eq!(
        chip.tick(),
        Err(Fault { kind: FaultKind::StackOverflow, address: 0x200, opcode: 0x2200 })
    );
    assert_eq!(chip.stack_depth(), 16);
    assert_eq!(chip.program_counter(), 0x200);
}

#[test]
fn fetch_past_the_end_of_memory_faults() {
    let mut chip = loaded(&[0x1F, 0xFF]);
    run(&mut chip, 1);
    assert_eq!(chip.program_counter(), 0xFFF);
    assert_eq!(chip.tick(), Err(Fault { kind: FaultKind::Fetch, address: 0xFFF, opcode: 0 }));
    assert_eq!(chip.program_counter(), 0xFFF);
}

#[test]
fn last_word_of_memory_can_be_fetched() {
    let mut chip = loaded(&[0x1F, 0xFE]);
    run(&mut chip, 2);
    assert_eq!(chip.program_counter(), 0x1000);
    assert_eq!(chip.tick(), Err(Fault { kind: FaultKind::Fetch, address: 0x1000, opcode: 0 }));
}

#[test]
fn store_past_the_end_of_memory_faults_and_writes_nothing() {
    let mut chip = loaded(&[0x60, 0xAA, 0x61, 0xBB, 0xAF, 0xFF, 0xF1, 0x55, 0xF0, 0x55]);
    run(&mut chip, 3);
    assert_eq!(
        chip.tick(),
        Err(Fault { kind: FaultKind::MemoryAccess, address: 0x206, opcode: 0xF155 })
    );
    assert_eq!(chip.memory()[0xFFF], 0);
    assert_eq!(chip.program_counter(), 0x206);
    // Storing V0 alone at the last byte fits.
    chip.load_state(&[0x60, 0xAA, 0x61, 0xBB, 0xAF, 0xFF, 0xF0, 0x55]).unwrap();
    chip.tick().unwrap();
    assert_eq!(chip.memory()[0xFFF], 0xAA);
}

#[test]
fn load_past_the_end_of_memory_faults() {
    let mut chip = loaded(&[0xAF, 0xFE, 0xF2, 0x65]);
    run(&mut chip, 1);
    assert_eq!(
        chip.tick(),
        Err(Fault { kind: FaultKind::MemoryAccess, address: 0x202, opcode: 0xF265 })
    );
    assert_eq!(chip.registers(), &[0u8; 16][..]);
}

#[test]
fn bcd_past_the_end_of_memory_faults() {
    let mut chip = loaded(&[0x60, 123, 0xAF, 0xFE, 0xF0, 0x33]);
    run(&mut chip, 2);
    assert_eq!(
        chip.tick(),
        Err(Fault { kind: FaultKind::MemoryAccess, address: 0x204, opcode: 0xF033 })
    );
    assert_eq!(&chip.memory()[0xFFE..], &[0, 0]);
    chip.load_state(&[0x60, 123, 0xAF, 0xFD]).unwrap();
    chip.reset();
    chip.load_state(&[0x60, 123, 0xAF, 0xFD, 0xF0, 0x33]).unwrap();
    run(&mut chip, 3);
    assert_eq!(&chip.memory()[0xFFD..], &[1, 2, 3]);
}

#[test]
fn sprite_past_the_end_of_memory_faults_and_draws_nothing() {
    let mut chip = loaded(&[0xAF, 0xFE, 0xD0, 0x03]);
    run(&mut chip, 1);
    assert_eq!(
        chip.tick(),
        Err(Fault { kind: FaultKind::MemoryAccess, address: 0x202, opcode: 0xD003 })
    );
    assert!(lit_cells(&chip).is_empty());
    let mut chip = loaded(&[0xAF, 0xFE, 0xD0, 0x02]);
    run(&mut chip, 2);
    assert_eq!(chip.program_counter(), 0x204);
}

#[test]
fn key_skip_on_a_register_that_holds_no_key_faults() {
    let mut chip = loaded(&[0x60, 0x10, 0xE0, 0x9E]);
    run(&mut chip, 1);
    assert_eq!(
        chip.tick(),
        Err(Fault { kind: FaultKind::InvalidKey, address: 0x202, opcode: 0xE09E })
    );
    let mut chip = loaded(&[0x60, 0xFF, 0xE0, 0xA1]);
    run(&mut chip, 1);
    assert_eq!(
        chip.tick(),
        Err(Fault { kind: FaultKind::InvalidKey, address: 0x202, opcode: 0xE0A1 })
    );
    assert_eq!(chip.program_counter(), 0x202);
}

#[test]
fn font_survives_a_program_that_stores_elsewhere() {
    let mut chip = loaded(&[
        0x60, 0x63, 0xA3, 0x00, 0xF0, 0x33, 0xF0, 0x55, 0xD0, 0x05, 0x22, 0x0E, 0x00, 0x00, 0x00,
        0xEE,
    ]);
    run(&mut chip, 7);
    assert_eq!(&chip.memory()[..80], &FONTSET[..]);
    assert_eq!(chip.program_counter(), 0x20C);
}

#[test]
fn every_word_either_decodes_or_faults_as_unknown() {
    for word in 0..=0xFFFFu16 {
        let mut chip = loaded(&[(word >> 8) as u8, word as u8]);
        let outcome = chip.tick_with(0);
        let unknown = Err(Fault { kind: FaultKind::UnknownInstruction, address: 0x200, opcode: word });
        assert_eq!(chip8::instruction::decode(word).is_none(), outcome == unknown, "{:#06X}", word);
    }
}

#[test]
fn a_fault_repeats_until_the_cause_is_gone() {
    let mut chip = loaded(&[0x60, 0x1F, 0xE0, 0x9E, 0x6A, 0x01]);
    run(&mut chip, 1);
    let first = chip.tick();
    assert!(first.is_err());
    assert_eq!(chip.tick(), first);
    // Replace the offending instruction by one that sets V0 to a key number.
    chip.load_state(&[0x60, 0x1F, 0x60, 0x0F]).unwrap();
    chip.tick().unwrap();
    assert_eq!(chip.registers()[0], 0x0F);
    assert_eq!(chip.program_counter(), 0x204);
}
