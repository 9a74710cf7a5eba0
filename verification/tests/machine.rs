//! Whole-machine behaviour: loading, the per-instruction semantics the
//! design pins down, the fatal conditions, and full cycles with timers.

use crisp_ate::cpu::{decode_opcode, CrispAte};
use crisp_ate::registers::CrispsAteDecodedOpcodes;
use crisp_ate::runtime::{
    CrispAteExecutionResult, CrispAteFault, CrispAteInputs, CrispAteLoadError,
};

#[test]
fn decode_is_total_and_deterministic() {
    // Every 16-bit word decodes, and decoding twice gives equal results.
    let mut word: u32 = 0;
    while word <= 0xFFFF {
        let first = decode_opcode(word as u16);
        let second = decode_opcode(word as u16);
        assert_eq!(first, second);
        word += 1;
    }
}

#[test]
fn decode_round_trips_known_words() {
    assert_eq!(decode_opcode(0x00E0), CrispsAteDecodedOpcodes::ClearDisplay);
    assert_eq!(decode_opcode(0x00EE), CrispsAteDecodedOpcodes::Return);
    assert_eq!(decode_opcode(0x1ABC), CrispsAteDecodedOpcodes::Jump(0xABC));
    assert_eq!(decode_opcode(0x6F10), CrispsAteDecodedOpcodes::SetVX(0xF, 0x10));
    assert_eq!(decode_opcode(0x8014), CrispsAteDecodedOpcodes::AddVYtoVX(0x0, 0x1));
}

#[test]
fn clear_display_unlights_everything_and_advances() {
    let mut vm = CrispAte::new(false);
    vm.screen = vec![true; 64 * 32];
    vm.registers.program_counter = 0x200;
    let result = vm.execute(decode_opcode(0x00E0), CrispAteInputs::idle());
    assert_eq!(result, CrispAteExecutionResult::Continue);
    assert_eq!(vm.screen, vec![false; 64 * 32]);
    assert_eq!(vm.registers.program_counter, 0x202);
}

#[test]
fn skip_if_register_equals_immediate() {
    let mut vm = CrispAte::new(false);
    vm.registers.v_4 = 0x21;
    vm.registers.program_counter = 0x200;
    vm.execute(decode_opcode(0x3421), CrispAteInputs::idle());
    assert_eq!(vm.registers.program_counter, 0x204);

    let mut vm = CrispAte::new(false);
    vm.registers.v_4 = 0x20;
    vm.registers.program_counter = 0x200;
    vm.execute(decode_opcode(0x3421), CrispAteInputs::idle());
    assert_eq!(vm.registers.program_counter, 0x202);
}

#[test]
fn call_then_return_round_trips_program_counter() {
    let mut vm = CrispAte::new(false);
    vm.registers.program_counter = 0x200;

    let result = vm.execute(decode_opcode(0x2300), CrispAteInputs::idle());
    assert_eq!(result, CrispAteExecutionResult::Continue);
    assert_eq!(vm.registers.program_counter, 0x300);
    assert_eq!(vm.runtime.stack[0], 0x200);
    assert_eq!(vm.runtime.stack_pointer, 1);

    let result = vm.execute(decode_opcode(0x00EE), CrispAteInputs::idle());
    assert_eq!(result, CrispAteExecutionResult::Continue);
    assert_eq!(vm.registers.program_counter, 0x200);
    assert_eq!(vm.runtime.stack_pointer, 0);
}

#[test]
fn add_with_carry_sets_flag_register() {
    let mut vm = CrispAte::new(false);
    vm.registers.v_0 = 250;
    vm.registers.v_1 = 10;
    vm.execute(decode_opcode(0x8014), CrispAteInputs::idle());
    assert_eq!(vm.registers.v_0, 4);
    assert_eq!(vm.registers.v_f, 1);

    let mut vm = CrispAte::new(false);
    vm.registers.v_0 = 10;
    vm.registers.v_1 = 20;
    vm.execute(decode_opcode(0x8014), CrispAteInputs::idle());
    assert_eq!(vm.registers.v_0, 30);
    assert_eq!(vm.registers.v_f, 0);
}

#[test]
fn drawing_twice_cancels_and_reports_collision() {
    let mut vm = CrispAte::new(false);
    // Two sprite rows, every bit set, loaded at 0x200.
    vm.init(&vec![0xFF, 0xFF]).unwrap();
    vm.execute(decode_opcode(0xA200), CrispAteInputs::idle());
    assert_eq!(vm.registers.address, 0x200);

    // First draw at (V0, V1) = (0, 0): cells light up, no collision.
    let result = vm.execute(decode_opcode(0xD012), CrispAteInputs::idle());
    assert_eq!(result, CrispAteExecutionResult::Continue);
    assert_eq!(vm.registers.v_f, 0);
    assert!(vm.screen[0]);
    assert!(vm.screen[7]);
    assert!(vm.screen[64]);
    assert!(vm.screen[64 + 7]);
    assert!(vm.registers.draw_flag);

    // Second identical draw: every touched cell toggles back off, and the
    // collision flag reports that they were lit going in.
    let result = vm.execute(decode_opcode(0xD012), CrispAteInputs::idle());
    assert_eq!(result, CrispAteExecutionResult::Continue);
    assert_eq!(vm.registers.v_f, 1);
    assert_eq!(vm.screen, vec![false; 64 * 32]);
}

#[test]
fn draw_wraps_in_each_axis() {
    let mut vm = CrispAte::new(false);
    vm.init(&vec![0x80]).unwrap();
    vm.execute(decode_opcode(0xA200), CrispAteInputs::idle());
    // Base coordinates (V0, V1) = (63, 31): the single set bit lands on the
    // last cell; a second draw at (127, 63) wraps to the same cell.
    vm.registers.v_0 = 63;
    vm.registers.v_1 = 31;
    vm.execute(decode_opcode(0xD011), CrispAteInputs::idle());
    assert!(vm.screen[31 * 64 + 63]);
    vm.registers.v_0 = 127;
    vm.registers.v_1 = 63;
    let result = vm.execute(decode_opcode(0xD011), CrispAteInputs::idle());
    assert_eq!(result, CrispAteExecutionResult::Continue);
    assert_eq!(vm.registers.v_f, 1);
    assert!(!vm.screen[31 * 64 + 63]);
}

#[test]
fn seventeen_calls_overflow_the_stack() {
    let mut vm = CrispAte::new(false);
    vm.registers.program_counter = 0x200;
    let mut calls = 0;
    while calls < 16 {
        let result = vm.execute(decode_opcode(0x2300), CrispAteInputs::idle());
        assert_eq!(result, CrispAteExecutionResult::Continue);
        calls += 1;
    }
    assert_eq!(vm.runtime.stack_pointer, 16);
    let result = vm.execute(decode_opcode(0x2300), CrispAteInputs::idle());
    assert_eq!(result, CrispAteExecutionResult::Halt(CrispAteFault::StackOverflow));
    assert_eq!(vm.runtime.stack_pointer, 16);
    assert_eq!(vm.registers.program_counter, 0x300);
}

#[test]
fn return_on_empty_stack_is_fatal() {
    let mut vm = CrispAte::new(false);
    vm.registers.program_counter = 0x200;
    let result = vm.execute(decode_opcode(0x00EE), CrispAteInputs::idle());
    assert_eq!(result, CrispAteExecutionResult::Halt(CrispAteFault::StackUnderflow));
    assert_eq!(vm.registers.program_counter, 0x200);
}

#[test]
fn unrecognized_word_is_fatal_at_execution() {
    let mut vm = CrispAte::new(false);
    let result = vm.execute(decode_opcode(0xE26A), CrispAteInputs::idle());
    assert_eq!(
        result,
        CrispAteExecutionResult::Halt(CrispAteFault::UnrecognizedOpcode(0xE26A))
    );
    assert_eq!(vm.registers.program_counter, 0);
}

#[test]
fn glyph_lookup_above_fifteen_is_fatal() {
    let mut vm = CrispAte::new(false);
    vm.registers.v_0 = 0x10;
    let result = vm.execute(decode_opcode(0xF029), CrispAteInputs::idle());
    assert_eq!(result, CrispAteExecutionResult::Halt(CrispAteFault::InvalidGlyphIndex));
}

#[test]
fn glyph_lookup_points_at_the_font() {
    let mut vm = CrispAte::new(false);
    vm.init(&Vec::new()).unwrap();
    vm.registers.v_0 = 0xA;
    let result = vm.execute(decode_opcode(0xF029), CrispAteInputs::idle());
    assert_eq!(result, CrispAteExecutionResult::Continue);
    assert_eq!(vm.registers.address, 0x50 + 5 * 0xA);
    // First row of the glyph for hexadecimal digit A.
    assert_eq!(vm.memory[vm.registers.address as usize], 0xF0);
}

#[test]
fn init_rejects_an_oversized_program() {
    let mut vm = CrispAte::new(false);
    let result = vm.init(&vec![0u8; 3585]);
    assert_eq!(result, Err(CrispAteLoadError::ProgramTooLarge));
    // Nothing was touched.
    assert_eq!(vm.registers.program_counter, 0);
    assert_eq!(vm.memory[0x50], 0);
}

#[test]
fn init_loads_program_and_font() {
    let mut vm = CrispAte::new(false);
    let mut image = vec![0u8; 3584];
    image[0] = 0xAB;
    image[3583] = 0xCD;
    assert_eq!(vm.init(&image), Ok(()));
    assert_eq!(vm.registers.program_counter, 0x200);
    assert_eq!(vm.memory[0x200], 0xAB);
    assert_eq!(vm.memory[0xFFF], 0xCD);
    // The glyph table sits at 0x050 through 0x09F.
    assert_eq!(vm.memory[0x50], 0xF0);
    assert_eq!(vm.memory[0x9F], 0x80);
    assert_eq!(vm.memory[0x4F], 0);
    assert_eq!(vm.memory[0xA0], 0);
}

#[test]
fn binary_coded_decimal_writes_three_digits() {
    let mut vm = CrispAte::new(false);
    vm.registers.v_0 = 234;
    vm.execute(decode_opcode(0xA300), CrispAteInputs::idle());
    let result = vm.execute(decode_opcode(0xF033), CrispAteInputs::idle());
    assert_eq!(result, CrispAteExecutionResult::Continue);
    assert_eq!(vm.memory[0x300], 2);
    assert_eq!(vm.memory[0x301], 3);
    assert_eq!(vm.memory[0x302], 4);
    assert_eq!(vm.registers.address, 0x300);
}

#[test]
fn store_then_fill_round_trips_registers() {
    let mut vm = CrispAte::new(false);
    vm.registers.v_0 = 11;
    vm.registers.v_1 = 22;
    vm.registers.v_2 = 33;
    vm.registers.v_3 = 44;
    vm.execute(decode_opcode(0xA400), CrispAteInputs::idle());
    vm.execute(decode_opcode(0xF355), CrispAteInputs::idle());
    assert_eq!(vm.memory[0x400], 11);
    assert_eq!(vm.memory[0x403], 44);
    assert_eq!(vm.registers.address, 0x400);

    vm.registers.v_0 = 0;
    vm.registers.v_1 = 0;
    vm.registers.v_2 = 0;
    vm.registers.v_3 = 0;
    vm.execute(decode_opcode(0xF365), CrispAteInputs::idle());
    assert_eq!(vm.registers.v_0, 11);
    assert_eq!(vm.registers.v_1, 22);
    assert_eq!(vm.registers.v_2, 33);
    assert_eq!(vm.registers.v_3, 44);
    assert_eq!(vm.registers.address, 0x400);
}

#[test]
fn random_byte_is_masked_into_the_register() {
    let mut vm = CrispAte::new(false);
    let inputs = CrispAteInputs { held_keys: 0, pressed_key: None, random_byte: 0xAB };
    vm.execute(decode_opcode(0xC00F), inputs);
    assert_eq!(vm.registers.v_0, 0x0B);
    vm.execute(decode_opcode(0xC1F0), inputs);
    assert_eq!(vm.registers.v_1, 0xA0);
}

#[test]
fn skip_if_key_pressed_consults_held_keys() {
    let mut vm = CrispAte::new(false);
    vm.registers.v_0 = 5;
    let inputs = CrispAteInputs { held_keys: 1 << 5, pressed_key: None, random_byte: 0 };
    vm.execute(decode_opcode(0xE09E), inputs);
    assert_eq!(vm.registers.program_counter, 4);

    let mut vm = CrispAte::new(false);
    vm.registers.v_0 = 6;
    vm.execute(decode_opcode(0xE09E), inputs);
    assert_eq!(vm.registers.program_counter, 2);
}

#[test]
fn skip_if_key_not_pressed_consults_held_keys() {
    let mut vm = CrispAte::new(false);
    vm.registers.v_0 = 5;
    let inputs = CrispAteInputs { held_keys: 1 << 5, pressed_key: None, random_byte: 0 };
    vm.execute(decode_opcode(0xE0A1), inputs);
    assert_eq!(vm.registers.program_counter, 2);

    let mut vm = CrispAte::new(false);
    vm.registers.v_0 = 6;
    vm.execute(decode_opcode(0xE0A1), inputs);
    assert_eq!(vm.registers.program_counter, 4);
}

#[test]
fn key_wait_blocks_until_a_key_arrives() {
    let mut vm = CrispAte::new(false);
    vm.registers.program_counter = 0x200;
    let result = vm.execute(decode_opcode(0xF20A), CrispAteInputs::idle());
    assert_eq!(result, CrispAteExecutionResult::AwaitingKeyInput(2));
    assert_eq!(vm.registers.program_counter, 0x200);

    let inputs = CrispAteInputs { held_keys: 0, pressed_key: Some(7), random_byte: 0 };
    let result = vm.execute(decode_opcode(0xF20A), inputs);
    assert_eq!(result, CrispAteExecutionResult::Continue);
    assert_eq!(vm.registers.v_2, 7);
    assert_eq!(vm.registers.program_counter, 0x202);
}

#[test]
fn shift_right_keeps_the_dropped_bit() {
    let mut vm = CrispAte::new(false);
    vm.registers.v_2 = 0x81;
    vm.execute(decode_opcode(0x8206), CrispAteInputs::idle());
    assert_eq!(vm.registers.v_2, 0x40);
    assert_eq!(vm.registers.v_f, 1);
}

#[test]
fn shift_left_keeps_the_dropped_bit() {
    let mut vm = CrispAte::new(false);
    vm.registers.v_2 = 0x81;
    vm.execute(decode_opcode(0x820E), CrispAteInputs::idle());
    assert_eq!(vm.registers.v_2, 0x02);
    assert_eq!(vm.registers.v_f, 1);
}

#[test]
fn subtract_sets_borrow_flag() {
    let mut vm = CrispAte::new(false);
    vm.registers.v_0 = 10;
    vm.registers.v_1 = 20;
    vm.execute(decode_opcode(0x8015), CrispAteInputs::idle());
    assert_eq!(vm.registers.v_0, 246);
    assert_eq!(vm.registers.v_f, 0);

    let mut vm = CrispAte::new(false);
    vm.registers.v_0 = 20;
    vm.registers.v_1 = 10;
    vm.execute(decode_opcode(0x8015), CrispAteInputs::idle());
    assert_eq!(vm.registers.v_0, 10);
    assert_eq!(vm.registers.v_f, 1);
}

#[test]
fn reverse_subtract_sets_borrow_flag() {
    let mut vm = CrispAte::new(false);
    vm.registers.v_0 = 10;
    vm.registers.v_1 = 20;
    vm.execute(decode_opcode(0x8017), CrispAteInputs::idle());
    assert_eq!(vm.registers.v_0, 10);
    assert_eq!(vm.registers.v_f, 1);

    let mut vm = CrispAte::new(false);
    vm.registers.v_0 = 20;
    vm.registers.v_1 = 10;
    vm.execute(decode_opcode(0x8017), CrispAteInputs::idle());
    assert_eq!(vm.registers.v_0, 246);
    assert_eq!(vm.registers.v_f, 0);
}

#[test]
fn bitwise_register_operations() {
    let mut vm = CrispAte::new(false);
    vm.registers.v_0 = 0b1100;
    vm.registers.v_1 = 0b1010;
    vm.execute(decode_opcode(0x8011), CrispAteInputs::idle());
    assert_eq!(vm.registers.v_0, 0b1110);

    vm.registers.v_0 = 0b1100;
    vm.execute(decode_opcode(0x8012), CrispAteInputs::idle());
    assert_eq!(vm.registers.v_0, 0b1000);

    vm.registers.v_0 = 0b1100;
    vm.execute(decode_opcode(0x8013), CrispAteInputs::idle());
    assert_eq!(vm.registers.v_0, 0b0110);

    vm.execute(decode_opcode(0x8010), CrispAteInputs::idle());
    assert_eq!(vm.registers.v_0, 0b1010);
}

#[test]
fn immediate_add_wraps_without_carry_flag() {
    let mut vm = CrispAte::new(false);
    vm.registers.v_0 = 250;
    vm.execute(decode_opcode(0x700A), CrispAteInputs::idle());
    assert_eq!(vm.registers.v_0, 4);
    assert_eq!(vm.registers.v_f, 0);
}

#[test]
fn add_to_address_register_wraps() {
    let mut vm = CrispAte::new(false);
    vm.registers.address = 0xFFFF;
    vm.registers.v_0 = 2;
    vm.execute(decode_opcode(0xF01E), CrispAteInputs::idle());
    assert_eq!(vm.registers.address, 1);
    assert_eq!(vm.registers.v_f, 0);
}

#[test]
fn jump_with_offset_adds_register_zero() {
    let mut vm = CrispAte::new(false);
    vm.registers.v_0 = 5;
    vm.execute(decode_opcode(0xB100), CrispAteInputs::idle());
    assert_eq!(vm.registers.program_counter, 0x105);
}

#[test]
fn native_call_is_a_no_op() {
    let mut vm = CrispAte::new(false);
    vm.registers.program_counter = 0x200;
    let result = vm.execute(decode_opcode(0x0123), CrispAteInputs::idle());
    assert_eq!(result, CrispAteExecutionResult::Continue);
    assert_eq!(vm.registers.program_counter, 0x202);
}

#[test]
fn timers_copy_through_registers() {
    let mut vm = CrispAte::new(false);
    vm.registers.v_0 = 42;
    vm.execute(decode_opcode(0xF015), CrispAteInputs::idle());
    assert_eq!(vm.timers.delay, 42);
    vm.execute(decode_opcode(0xF018), CrispAteInputs::idle());
    assert_eq!(vm.timers.sound, 42);
    vm.execute(decode_opcode(0xF107), CrispAteInputs::idle());
    assert_eq!(vm.registers.v_1, 42);
}

#[test]
fn cycle_runs_one_instruction_and_drains_timers() {
    let mut vm = CrispAte::new(false);
    vm.init(&vec![0x60, 0x05]).unwrap();
    vm.timers.delay = 3;
    vm.timers.sound = 1;
    assert!(vm.cycle_ready());
    let outcome = vm.emulation_cyle(CrispAteInputs::idle());
    assert_eq!(outcome.result, CrispAteExecutionResult::Continue);
    assert!(outcome.sound_tone);
    assert_eq!(vm.registers.v_0, 5);
    assert_eq!(vm.registers.program_counter, 0x202);
    assert_eq!(vm.timers.delay, 2);
    assert_eq!(vm.timers.sound, 0);

    // A second cycle: no tone once the sound timer sits at zero.
    let outcome = vm.emulation_cyle(CrispAteInputs::idle());
    assert!(!outcome.sound_tone);
    assert_eq!(vm.timers.delay, 1);
}

#[test]
fn cycle_retries_a_blocked_key_wait() {
    let mut vm = CrispAte::new(false);
    vm.init(&vec![0xF0, 0x0A]).unwrap();
    let outcome = vm.emulation_cyle(CrispAteInputs::idle());
    assert_eq!(outcome.result, CrispAteExecutionResult::AwaitingKeyInput(0));
    assert_eq!(vm.registers.program_counter, 0x200);

    let inputs = CrispAteInputs { held_keys: 0, pressed_key: Some(3), random_byte: 0 };
    let outcome = vm.emulation_cyle(inputs);
    assert_eq!(outcome.result, CrispAteExecutionResult::Continue);
    assert_eq!(vm.registers.v_0, 3);
    assert_eq!(vm.registers.program_counter, 0x202);
}

#[test]
fn cycle_ready_guards_the_machine_bounds() {
    let mut vm = CrispAte::new(false);
    assert!(vm.cycle_ready());

    vm.registers.program_counter = 4095;
    assert!(!vm.cycle_ready());

    // A sprite draw whose rows would run past the end of memory.
    let mut vm = CrispAte::new(false);
    vm.init(&vec![0xD0, 0x12]).unwrap();
    vm.registers.address = 4095;
    assert!(!vm.cycle_ready());
    vm.registers.address = 4094;
    assert!(vm.cycle_ready());
}
