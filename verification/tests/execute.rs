//! The execution tests carried over from the machine's original suite,
//! adapted to the engine's explicit per-cycle inputs.

use crisp_ate::cpu::{decode_opcode, CrispAte};
use crisp_ate::runtime::CrispAteInputs;

#[test]
fn can_properly_execute_clearscreen_opcode() {
    // ClearDisplay -> 00E0
    let mut sut = CrispAte::new(false);
    sut.screen = vec![true; 64 * 32];
    sut.execute(decode_opcode(0x00E0), CrispAteInputs::idle());

    assert_eq!(sut.screen, vec![false; 64 * 32])
}

#[test]
fn can_properly_execute_jump_opcode() {
    // Jump(u16) -> 1NNN (NNN)
    let mut sut = CrispAte::new(false);
    sut.registers.program_counter = 1;
    sut.execute(decode_opcode(0x1200), CrispAteInputs::idle());

    assert_eq!(sut.registers.program_counter, 0x200);
}

#[test]
fn can_properly_execute_setvx_opcode() {
    // SetVX(u8, u8) -> 6XNN (X, NN)
    let mut sut = CrispAte::new(false);

    sut.execute(decode_opcode(0x6001), CrispAteInputs::idle());
    assert_eq!(sut.registers.v_0, 0x01);

    sut.execute(decode_opcode(0x6102), CrispAteInputs::idle());
    assert_eq!(sut.registers.v_1, 0x02);

    sut.execute(decode_opcode(0x6203), CrispAteInputs::idle());
    assert_eq!(sut.registers.v_2, 0x03);

    sut.execute(decode_opcode(0x6304), CrispAteInputs::idle());
    assert_eq!(sut.registers.v_3, 0x04);

    sut.execute(decode_opcode(0x6405), CrispAteInputs::idle());
    assert_eq!(sut.registers.v_4, 0x05);

    sut.execute(decode_opcode(0x6506), CrispAteInputs::idle());
    assert_eq!(sut.registers.v_5, 0x06);

    sut.execute(decode_opcode(0x6607), CrispAteInputs::idle());
    assert_eq!(sut.registers.v_6, 0x07);

    sut.execute(decode_opcode(0x6708), CrispAteInputs::idle());
    assert_eq!(sut.registers.v_7, 0x08);

    sut.execute(decode_opcode(0x6809), CrispAteInputs::idle());
    assert_eq!(sut.registers.v_8, 0x09);

    sut.execute(decode_opcode(0x6910), CrispAteInputs::idle());
    assert_eq!(sut.registers.v_9, 0x10);

    sut.execute(decode_opcode(0x6A11), CrispAteInputs::idle());
    assert_eq!(sut.registers.v_a, 0x11);

    sut.execute(decode_opcode(0x6B12), CrispAteInputs::idle());
    assert_eq!(sut.registers.v_b, 0x12);

    sut.execute(decode_opcode(0x6C13), CrispAteInputs::idle());
    assert_eq!(sut.registers.v_c, 0x13);

    sut.execute(decode_opcode(0x6D14), CrispAteInputs::idle());
    assert_eq!(sut.registers.v_d, 0x14);

    sut.execute(decode_opcode(0x6E15), CrispAteInputs::idle());
    assert_eq!(sut.registers.v_e, 0x15);

    sut.execute(decode_opcode(0x6F16), CrispAteInputs::idle());
    assert_eq!(sut.registers.v_f, 0x16);
}

#[test]
fn can_properly_execute_addtovx_opcode() {
    // AddToVX(u8, u8) -> 7XNN (X, NN)
    let mut sut = CrispAte::new(false);

    sut.registers.v_0 = 0x1;
    sut.registers.v_1 = 0x1;
    sut.registers.v_2 = 0x1;
    sut.registers.v_3 = 0x1;
    sut.registers.v_4 = 0x1;
    sut.registers.v_5 = 0x1;
    sut.registers.v_6 = 0x1;
    sut.registers.v_7 = 0x1;
    sut.registers.v_8 = 0x1;
    sut.registers.v_9 = 0x1;
    sut.registers.v_a = 0x1;
    sut.registers.v_b = 0x1;
    sut.registers.v_c = 0x1;
    sut.registers.v_d = 0x1;
    sut.registers.v_e = 0x1;
    sut.registers.v_f = 0x1;

    sut.execute(decode_opcode(0x7001), CrispAteInputs::idle());
    assert_eq!(sut.registers.v_0, 0x02);
    assert_eq!(sut.registers.program_counter, 2);

    sut.execute(decode_opcode(0x7102), CrispAteInputs::idle());
    assert_eq!(sut.registers.v_1, 0x03);
    assert_eq!(sut.registers.program_counter, 4);

    sut.execute(decode_opcode(0x7203), CrispAteInputs::idle());
    assert_eq!(sut.registers.v_2, 0x04);
    assert_eq!(sut.registers.program_counter, 6);

    sut.execute(decode_opcode(0x7304), CrispAteInputs::idle());
    assert_eq!(sut.registers.v_3, 0x05);
    assert_eq!(sut.registers.program_counter, 8);

    sut.execute(decode_opcode(0x7405), CrispAteInputs::idle());
    assert_eq!(sut.registers.v_4, 0x06);
    assert_eq!(sut.registers.program_counter, 10);

    sut.execute(decode_opcode(0x7506), CrispAteInputs::idle());
    assert_eq!(sut.registers.v_5, 0x07);
    assert_eq!(sut.registers.program_counter, 12);

    sut.execute(decode_opcode(0x7607), CrispAteInputs::idle());
    assert_eq!(sut.registers.v_6, 0x08);
    assert_eq!(sut.registers.program_counter, 14);

    sut.execute(decode_opcode(0x7708), CrispAteInputs::idle());
    assert_eq!(sut.registers.v_7, 0x09);
    assert_eq!(sut.registers.program_counter, 16);

    sut.execute(decode_opcode(0x7809), CrispAteInputs::idle());
    assert_eq!(sut.registers.v_8, 0x0A);
    assert_eq!(sut.registers.program_counter, 18);

    sut.execute(decode_opcode(0x790A), CrispAteInputs::idle());
    assert_eq!(sut.registers.v_9, 0x0B);
    assert_eq!(sut.registers.program_counter, 20);

    sut.execute(decode_opcode(0x7A0B), CrispAteInputs::idle());
    assert_eq!(sut.registers.v_a, 0x0C);
    assert_eq!(sut.registers.program_counter, 22);

    sut.execute(decode_opcode(0x7B0C), CrispAteInputs::idle());
    assert_eq!(sut.registers.v_b, 0x0D);
    assert_eq!(sut.registers.program_counter, 24);

    sut.execute(decode_opcode(0x7C0D), CrispAteInputs::idle());
    assert_eq!(sut.registers.v_c, 0x0E);
    assert_eq!(sut.registers.program_counter, 26);

    sut.execute(decode_opcode(0x7D0E), CrispAteInputs::idle());
    assert_eq!(sut.registers.v_d, 0x0F);
    assert_eq!(sut.registers.program_counter, 28);

    sut.execute(decode_opcode(0x7E0F), CrispAteInputs::idle());
    assert_eq!(sut.registers.v_e, 0x10);
    assert_eq!(sut.registers.program_counter, 30);

    sut.execute(decode_opcode(0x7F10), CrispAteInputs::idle());
    assert_eq!(sut.registers.v_f, 0x11);
    assert_eq!(sut.registers.program_counter, 32);
}

#[test]
fn can_properly_execute_setiaddress_opcode() {
    // SetIAddress(u16) -> ANNN (NNN)
    let mut sut = CrispAte::new(false);
    sut.execute(decode_opcode(0xA123), CrispAteInputs::idle());

    assert_eq!(sut.registers.address, 0x123);
    assert_eq!(sut.registers.program_counter, 2);
}
