//! The machine itself: the instruction decoder and the execution engine,
//! both verified against the model in `crate::model`.

use crate::model::{
    cycle_safe, draw_index, draw_row, draw_sprite, fetch_word, font_data, init_memory,
    lemma_decode_wf, lemma_draw_row_len, lemma_field_bounds, lemma_step_wf, load_regs, low_12_bits,
    low_byte, nibble_1, nibble_2, nibble_3, nibble_4, opcode_wf, spec_cycle, spec_decode,
    spec_step, step_safe, store_regs, CrispAteView,
};
use crate::registers::{CrispAteRegisters, CrispAteTimers, CrispsAteDecodedOpcodes};
use crate::runtime::{
    CrispAteCycleOutcome, CrispAteExecutionResult, CrispAteFault, CrispAteInputs,
    CrispAteLoadError, CrispAteRuntime,
};
use vstd::prelude::*;

verus! {

/// One operand field of an instruction word, named by its position.
#[derive(Clone, Copy, Debug, PartialEq, Eq, Structural)]
pub enum Digit {
    First(u16),
    Second(u16),
    Third(u16),
    Last(u16),
    LastTwo(u16),
    LastThree(u16),
}

/// Extracts the named field from the instruction word it carries.
pub fn get_digit(input: Digit) -> (digit: u16)
    ensures
        (input matches Digit::First(w) ==> digit == nibble_1(w)),
        (input matches Digit::Second(w) ==> digit == nibble_2(w)),
        (input matches Digit::Third(w) ==> digit == nibble_3(w)),
        (input matches Digit::Last(w) ==> digit == nibble_4(w)),
        (input matches Digit::LastTwo(w) ==> digit == low_byte(w)),
        (input matches Digit::LastThree(w) ==> digit == low_12_bits(w)),
{
    match input {
        Digit::First(opcode) => opcode >> 12,
        Digit::Second(opcode) => (opcode >> 8) & 0xF,
        Digit::Third(opcode) => (opcode >> 4) & 0xF,
        Digit::Last(opcode) => opcode & 0xF,
        Digit::LastTwo(opcode) => opcode & 0xFF,
        Digit::LastThree(opcode) => opcode & 0xFFF,
    }
}

/// Maps a 16-bit instruction word to its decoded form. Total and a pure
/// function of the word: the result is exactly `spec_decode` of the word,
/// with every operand field in range.
pub fn decode_opcode(opcode: u16) -> (decoded: CrispsAteDecodedOpcodes)
    ensures
        decoded == spec_decode(opcode),
        opcode_wf(decoded),
{
    proof {
        lemma_field_bounds(opcode);
        lemma_decode_wf(opcode);
    }
    match get_digit(Digit::First(opcode)) {
        0x0 => match get_digit(Digit::Last(opcode)) {
            0x0 => CrispsAteDecodedOpcodes::ClearDisplay,
            0xE => CrispsAteDecodedOpcodes::Return,
            _ => CrispsAteDecodedOpcodes::Call(get_digit(Digit::LastThree(opcode))),
        },
        0x1 => CrispsAteDecodedOpcodes::Jump(get_digit(Digit::LastThree(opcode))),
        0x2 => CrispsAteDecodedOpcodes::CallSubRoutine(get_digit(Digit::LastThree(opcode))),
        0x3 => CrispsAteDecodedOpcodes::SkipIfVXEquals(
            get_digit(Digit::Second(opcode)) as u8,
            get_digit(Digit::LastTwo(opcode)) as u8,
        ),
        0x4 => CrispsAteDecodedOpcodes::SkipIfVXNotEqual(
            get_digit(Digit::Second(opcode)) as u8,
            get_digit(Digit::LastTwo(opcode)) as u8,
        ),
        0x5 => CrispsAteDecodedOpcodes::SkipIfVXEqualsVY(
            get_digit(Digit::Second(opcode)) as u8,
            get_digit(Digit::Third(opcode)) as u8,
        ),
        0x6 => CrispsAteDecodedOpcodes::SetVX(
            get_digit(Digit::Second(opcode)) as u8,
            get_digit(Digit::LastTwo(opcode)) as u8,
        ),
        0x7 => CrispsAteDecodedOpcodes::AddToVX(
            get_digit(Digit::Second(opcode)) as u8,
            get_digit(Digit::LastTwo(opcode)) as u8,
        ),
        0x8 => match get_digit(Digit::Last(opcode)) {
            0x0 => CrispsAteDecodedOpcodes::SetVXToVY(
                get_digit(Digit::Second(opcode)) as u8,
                get_digit(Digit::Third(opcode)) as u8,
            ),
            0x1 => CrispsAteDecodedOpcodes::SetVXToVXorVY(
                get_digit(Digit::Second(opcode)) as u8,
                get_digit(Digit::Third(opcode)) as u8,
            ),
            0x2 => CrispsAteDecodedOpcodes::SetVXToVXandVY(
                get_digit(Digit::Second(opcode)) as u8,
                get_digit(Digit::Third(opcode)) as u8,
            ),
            0x3 => CrispsAteDecodedOpcodes::SetVXToVXxorVY(
                get_digit(Digit::Second(opcode)) as u8,
                get_digit(Digit::Third(opcode)) as u8,
            ),
            0x4 => CrispsAteDecodedOpcodes::AddVYtoVX(
                get_digit(Digit::Second(opcode)) as u8,
                get_digit(Digit::Third(opcode)) as u8,
            ),
            0x5 => CrispsAteDecodedOpcodes::SubtractVYFromVX(
                get_digit(Digit::Second(opcode)) as u8,
                get_digit(Digit::Third(opcode)) as u8,
            ),
            0x6 => CrispsAteDecodedOpcodes::StoreLeastBitOfVXAndShiftVXRight(
                get_digit(Digit::Second(opcode)) as u8,
            ),
            0x7 => CrispsAteDecodedOpcodes::SetVXToVYMinusVX(
                get_digit(Digit::Second(opcode)) as u8,
                get_digit(Digit::Third(opcode)) as u8,
            ),
            0xE => CrispsAteDecodedOpcodes::StoreMostBitOfVXAndShiftVXLeft(
                get_digit(Digit::Second(opcode)) as u8,
            ),
            _ => CrispsAteDecodedOpcodes::Unknown(opcode),
        },
        0x9 => CrispsAteDecodedOpcodes::SkipIfVXNotEqualVY(
            get_digit(Digit::Second(opcode)) as u8,
            get_digit(Digit::Third(opcode)) as u8,
        ),
        0xA => CrispsAteDecodedOpcodes::SetIAddress(get_digit(Digit::LastThree(opcode))),
        0xB => CrispsAteDecodedOpcodes::JumpToAddress(get_digit(Digit::LastThree(opcode))),
        0xC => CrispsAteDecodedOpcodes::SetVXToBitwiseANDWithSaltAndRandom(
            get_digit(Digit::Second(opcode)) as u8,
            get_digit(Digit::LastTwo(opcode)) as u8,
        ),
        0xD => CrispsAteDecodedOpcodes::DrawSpriteAt(
            get_digit(Digit::Second(opcode)) as u8,
            get_digit(Digit::Third(opcode)) as u8,
            get_digit(Digit::Last(opcode)) as u8,
        ),
        0xE => match get_digit(Digit::LastTwo(opcode)) {
            0x9E => CrispsAteDecodedOpcodes::SkipIfKeyAtVXIsPressed(
                get_digit(Digit::Second(opcode)) as u8,
            ),
            0xA1 => CrispsAteDecodedOpcodes::SkipIfKeyAtVXIsNotPressed(
                get_digit(Digit::Second(opcode)) as u8,
            ),
            _ => CrispsAteDecodedOpcodes::Unknown(opcode),
        },
        0xF => match get_digit(Digit::LastTwo(opcode)) {
            0x07 => CrispsAteDecodedOpcodes::SetVXToDelayValue(
                get_digit(Digit::Second(opcode)) as u8,
            ),
            0x0A => CrispsAteDecodedOpcodes::GetKeyToVX(get_digit(Digit::Second(opcode)) as u8),
            0x15 => CrispsAteDecodedOpcodes::SetDelayToVX(get_digit(Digit::Second(opcode)) as u8),
            0x18 => CrispsAteDecodedOpcodes::SetSoundToVX(get_digit(Digit::Second(opcode)) as u8),
            0x1E => CrispsAteDecodedOpcodes::AddVXToI(get_digit(Digit::Second(opcode)) as u8),
            0x29 => CrispsAteDecodedOpcodes::SetIToLocationOfVXChar(
                get_digit(Digit::Second(opcode)) as u8,
            ),
            0x33 => CrispsAteDecodedOpcodes::StoreBinaryCodedDecimalVX(
                get_digit(Digit::Second(opcode)) as u8,
            ),
            0x55 => CrispsAteDecodedOpcodes::StoreFromV0ToVXStartingFromI(
                get_digit(Digit::Second(opcode)) as u8,
            ),
            0x65 => CrispsAteDecodedOpcodes::FillFromV0ToVXStartingFromI(
                get_digit(Digit::Second(opcode)) as u8,
            ),
            _ => CrispsAteDecodedOpcodes::Unknown(opcode),
        },
        _ => CrispsAteDecodedOpcodes::Unknown(opcode),
    }
}

/// The whole machine: memory, register file, framebuffer, timers and call
/// stack. Its abstract value is a `CrispAteView`.
#[derive(Debug)]
pub struct CrispAte {
    pub memory: Vec<u8>,
    pub registers: CrispAteRegisters,
    pub screen: Vec<bool>,
    pub timers: CrispAteTimers,
    pub runtime: CrispAteRuntime,
    pub debug_mode: bool,
}

impl View for CrispAte {
    type V = CrispAteView;

    open spec fn view(&self) -> CrispAteView {
        CrispAteView {
            memory: self.memory@,
            vregs: self.registers.vregs(),
            address: self.registers.address,
            program_counter: self.registers.program_counter,
            draw_flag: self.registers.draw_flag,
            screen: self.screen@,
            delay: self.timers.delay,
            sound: self.timers.sound,
            stack: self.runtime.stack@,
            stack_pointer: self.runtime.stack_pointer as int,
            debug_mode: self.debug_mode,
        }
    }
}

impl CrispAte {
    /// The machine has its architectural shape.
    pub open spec fn wf(&self) -> bool {
        self@.wf()
    }

    /// A zero-initialized machine: memory, registers, framebuffer, timers
    /// and stack all cleared, with the diagnostic flag as asked.
    pub fn new(debug_mode: bool) -> (vm: CrispAte)
        ensures
            vm@ == (CrispAteView {
                memory: seq![0u8; 4096],
                vregs: seq![0u8; 16],
                address: 0,
                program_counter: 0,
                draw_flag: false,
                screen: seq![false; 2048],
                delay: 0,
                sound: 0,
                stack: seq![0u16; 16],
                stack_pointer: 0,
                debug_mode: debug_mode,
            }),
            vm.wf(),
    {
        let mut memory: Vec<u8> = Vec::new();
        for i in 0..4096usize
            invariant
                memory@ =~= seq![0u8; 4096].take(i as int),
        {
            memory.push(0);
        }
        let mut screen: Vec<bool> = Vec::new();
        for i in 0..2048usize
            invariant
                screen@ =~= seq![false; 2048].take(i as int),
        {
            screen.push(false);
        }
        let vm = CrispAte {
            memory,
            registers: CrispAteRegisters::new(),
            screen,
            timers: CrispAteTimers::new(),
            runtime: CrispAteRuntime::new(),
            debug_mode,
        };
        proof {
            assert(vm@.memory =~= seq![0u8; 4096]);
            assert(vm@.screen =~= seq![false; 2048]);
            assert(vm@ =~~= (CrispAteView {
                memory: seq![0u8; 4096],
                vregs: seq![0u8; 16],
                address: 0,
                program_counter: 0,
                draw_flag: false,
                screen: seq![false; 2048],
                delay: 0,
                sound: 0,
                stack: seq![0u16; 16],
                stack_pointer: 0,
                debug_mode: debug_mode,
            }));
        }
        vm
    }

    /// The value of the general-purpose register named by `v_no`.
    pub fn find_v_register(&self, v_no: u8) -> (value: u8)
        requires
            v_no < 16,
        ensures
            value == self@.vregs[v_no as int],
    {
        match v_no {
            0x0 => self.registers.v_0,
            0x1 => self.registers.v_1,
            0x2 => self.registers.v_2,
            0x3 => self.registers.v_3,
            0x4 => self.registers.v_4,
            0x5 => self.registers.v_5,
            0x6 => self.registers.v_6,
            0x7 => self.registers.v_7,
            0x8 => self.registers.v_8,
            0x9 => self.registers.v_9,
            0xA => self.registers.v_a,
            0xB => self.registers.v_b,
            0xC => self.registers.v_c,
            0xD => self.registers.v_d,
            0xE => self.registers.v_e,
            _ => self.registers.v_f,
        }
    }

    /// Writes the general-purpose register named by `v_no`, leaving the rest
    /// of the machine as it was.
    fn set_v_register(&mut self, v_no: u8, value: u8)
        requires
            v_no < 16,
        ensures
            final(self)@ == (CrispAteView {
                vregs: old(self)@.vregs.update(v_no as int, value),
                ..old(self)@
            }),
    {
        match v_no {
            0x0 => self.registers.v_0 = value,
            0x1 => self.registers.v_1 = value,
            0x2 => self.registers.v_2 = value,
            0x3 => self.registers.v_3 = value,
            0x4 => self.registers.v_4 = value,
            0x5 => self.registers.v_5 = value,
            0x6 => self.registers.v_6 = value,
            0x7 => self.registers.v_7 = value,
            0x8 => self.registers.v_8 = value,
            0x9 => self.registers.v_9 = value,
            0xA => self.registers.v_a = value,
            0xB => self.registers.v_b = value,
            0xC => self.registers.v_c = value,
            0xD => self.registers.v_d = value,
            0xE => self.registers.v_e = value,
            _ => self.registers.v_f = value,
        }
        proof {
            assert(self@.vregs =~= old(self)@.vregs.update(v_no as int, value));
            assert(self@ =~~= (CrispAteView {
                vregs: old(self)@.vregs.update(v_no as int, value),
                ..old(self)@
            }));
        }
    }

    /// Loads the glyph table at 0x050 and the program image at 0x200, then
    /// points the program counter at the program. An image larger than the
    /// 3584 bytes of program memory is rejected before anything is touched.
    pub fn init(&mut self, file_bytes: &Vec<u8>) -> (loaded: Result<(), CrispAteLoadError>)
        requires
            old(self).wf(),
        ensures
            file_bytes@.len() > 3584 ==> loaded == Result::<(), CrispAteLoadError>::Err(
                CrispAteLoadError::ProgramTooLarge,
            ) && final(self)@ == old(self)@,
            file_bytes@.len() <= 3584 ==> loaded == Result::<(), CrispAteLoadError>::Ok(())
                && final(self)@ == (CrispAteView {
                memory: init_memory(old(self)@.memory, file_bytes@),
                program_counter: 0x200,
                ..old(self)@
            }),
            final(self).wf(),
    {
        if file_bytes.len() > 3584 {
            return Err(CrispAteLoadError::ProgramTooLarge);
        }
        let ghost s0 = self@;
        let mut fb_index: usize = 0;
        while fb_index < file_bytes.len()
            invariant
                s0.wf(),
                file_bytes@.len() <= 3584,
                fb_index <= file_bytes@.len(),
                self@ == (CrispAteView { memory: self@.memory, ..s0 }),
                self@.memory.len() == 4096,
                forall|j: int|
                    0 <= j < 4096 && !(0x200 <= j < 0x200 + fb_index) ==> self@.memory[j]
                        == s0.memory[j],
                forall|j: int|
                    0x200 <= j < 0x200 + fb_index ==> self@.memory[j] == file_bytes@[j - 0x200],
            decreases file_bytes@.len() - fb_index,
        {
            self.memory[0x200 + fb_index] = file_bytes[fb_index];
            fb_index += 1;
        }
        let font = font_bytes();
        let mut index: usize = 0;
        while index < 80
            invariant
                s0.wf(),
                file_bytes@.len() <= 3584,
                index <= 80,
                font@ == font_data(),
                self@ == (CrispAteView { memory: self@.memory, ..s0 }),
                self@.memory.len() == 4096,
                forall|j: int|
                    0 <= j < 4096 && !(0x200 <= j < 0x200 + file_bytes@.len()) && !(0x50 <= j < 0x50
                        + index) ==> self@.memory[j] == s0.memory[j],
                forall|j: int|
                    0x200 <= j < 0x200 + file_bytes@.len() ==> self@.memory[j] == file_bytes@[j
                        - 0x200],
                forall|j: int| 0x50 <= j < 0x50 + index ==> self@.memory[j] == font_data()[j - 0x50],
            decreases 80 - index,
        {
            self.memory[0x50 + index] = font[index];
            index += 1;
        }
        self.registers.program_counter = 0x200;
        proof {
            assert(self@.memory =~= init_memory(s0.memory, file_bytes@));
            assert(self@ =~~= (CrispAteView {
                memory: init_memory(s0.memory, file_bytes@),
                program_counter: 0x200,
                ..s0
            }));
        }
        Ok(())
    }

    /// Reads the big-endian instruction word at the program counter and
    /// decodes it.
    fn fetch_and_decode(&self) -> (decoded: CrispsAteDecodedOpcodes)
        requires
            self.wf(),
            self@.program_counter + 1 < 4096,
        ensures
            decoded == spec_decode(fetch_word(self@)),
            opcode_wf(decoded),
    {
        let program_counter: usize = self.registers.program_counter as usize;
        let opcode_first_byte = self.memory[program_counter];
        let opcode_second_byte = self.memory[program_counter + 1];
        let opcode: u16 = ((opcode_first_byte as u16) << 8) | (opcode_second_byte as u16);
        decode_opcode(opcode)
    }

    /// Sets every framebuffer cell to unlit.
    fn clear_screen(&mut self)
        ensures
            final(self)@ == (CrispAteView {
                screen: Seq::new(64 * 32, |i: int| false),
                ..old(self)@
            }),
    {
        let mut cleared: Vec<bool> = Vec::new();
        for i in 0..2048usize
            invariant
                cleared@ =~= seq![false; 2048].take(i as int),
        {
            cleared.push(false);
        }
        self.screen = cleared;
        proof {
            assert(self@.screen =~= Seq::new(64 * 32, |i: int| false));
            assert(self@ =~~= (CrispAteView {
                screen: Seq::new(64 * 32, |i: int| false),
                ..old(self)@
            }));
        }
    }

    /// Draws the sprite rows read from memory at the address register onto
    /// the framebuffer, wrapping in each axis, and reports whether any lit
    /// cell was toggled off.
    fn draw_sprite_rows(&mut self, bx: u8, by: u8, n: u8) -> (hit: bool)
        requires
            old(self).wf(),
            bx < 64,
            by < 32,
            n < 16,
            old(self)@.address + n <= 4096,
        ensures
            ({
                let (fb, h) = draw_sprite(
                    old(self)@.screen,
                    old(self)@.memory,
                    old(self)@.address as int,
                    bx as int,
                    by as int,
                    n as int,
                );
                final(self)@ == (CrispAteView { screen: fb, ..old(self)@ }) && hit == h
            }),
    {
        let ghost s0 = self@;
        let mut hit: bool = false;
        let mut row: u8 = 0;
        while row < n
            invariant
                s0.wf(),
                bx < 64,
                by < 32,
                n < 16,
                row <= n,
                s0.address + n <= 4096,
                self@ == (CrispAteView { screen: self@.screen, ..s0 }),
                self@.screen.len() == 64 * 32,
                ({
                    let (fb, h) = draw_sprite(
                        s0.screen,
                        s0.memory,
                        s0.address as int,
                        bx as int,
                        by as int,
                        row as int,
                    );
                    self@.screen == fb && hit == h
                }),
            decreases n - row,
        {
            let b = self.memory[(self.registers.address + row as u16) as usize];
            let ghost fb_row = self@.screen;
            let ghost hit_row = hit;
            let mut col: u8 = 0;
            while col < 8
                invariant
                    s0.wf(),
                    bx < 64,
                    by < 32,
                    col <= 8,
                    row < n,
                    n < 16,
                    s0.address + n <= 4096,
                    self@ == (CrispAteView { screen: self@.screen, ..s0 }),
                    self@.screen.len() == 64 * 32,
                    fb_row.len() == 64 * 32,
                    b == s0.memory[s0.address + row],
                    ({
                        let (fbp, hp) = draw_row(
                            fb_row,
                            b,
                            bx as int,
                            by as int,
                            row as int,
                            col as int,
                        );
                        self@.screen == fbp && hit == (hit_row || hp)
                    }),
                decreases 8 - col,
            {
                proof {
                    lemma_draw_row_len(fb_row, b, bx as int, by as int, row as int, col as int);
                }
                if b & (0x80u8 >> col) != 0 {
                    let tx = ((bx as usize) + (col as usize)) % 64;
                    let ty = ((by as usize) + (row as usize)) % 32;
                    let idx = ty * 64 + tx;
                    proof {
                        assert(idx == draw_index(bx as int, by as int, col as int, row as int));
                    }
                    let cur = self.screen[idx];
                    if cur {
                        hit = true;
                    }
                    self.screen[idx] = !cur;
                }
                col = col + 1;
            }
            row = row + 1;
        }
        proof {
            assert(self@ =~~= (CrispAteView { screen: self@.screen, ..s0 }));
        }
        hit
    }

    /// Copies registers 0 through `x` inclusive into memory starting at the
    /// address register; the address register itself is left as it was.
    fn store_register_range(&mut self, x: u8)
        requires
            old(self).wf(),
            x < 16,
            old(self)@.address + x + 1 <= 4096,
        ensures
            final(self)@ == (CrispAteView {
                memory: store_regs(
                    old(self)@.memory,
                    old(self)@.vregs,
                    old(self)@.address as int,
                    x + 1,
                ),
                ..old(self)@
            }),
    {
        let ghost s0 = self@;
        let mut i: u8 = 0;
        while i <= x
            invariant
                s0.wf(),
                x < 16,
                i <= x + 1,
                s0.address + x + 1 <= 4096,
                self@ == (CrispAteView { memory: self@.memory, ..s0 }),
                self@.memory.len() == 4096,
                self@.memory == store_regs(s0.memory, s0.vregs, s0.address as int, i as int),
            decreases x + 1 - i,
        {
            let value = self.find_v_register(i);
            self.memory[(self.registers.address + i as u16) as usize] = value;
            i = i + 1;
        }
    }

    /// Applies one decoded instruction to the machine, returning the signal
    /// it produced: `Continue` for an instruction that completed,
    /// `AwaitingKeyInput` when a key wait found no key (the state is left
    /// untouched so the instruction is retried), and `Halt` on a fatal
    /// condition, which also leaves the state untouched. The new state and
    /// the signal are exactly `spec_step` of the old state.
    pub fn execute(&mut self, opcode: CrispsAteDecodedOpcodes, inputs: CrispAteInputs) -> (result:
        CrispAteExecutionResult)
        requires
            old(self).wf(),
            opcode_wf(opcode),
            inputs.wf(),
            step_safe(old(self)@, opcode),
        ensures
            final(self)@ == spec_step(old(self)@, opcode, inputs).0,
            result == spec_step(old(self)@, opcode, inputs).1,
            final(self).wf(),
    {
        proof {
            lemma_step_wf(old(self)@, opcode, inputs);
        }
        match opcode {
            CrispsAteDecodedOpcodes::Call(_) => {
                // Native-code call on the historical target: no effect here.
                self.registers.program_counter = self.registers.program_counter + 2;
                CrispAteExecutionResult::Continue
            },
            CrispsAteDecodedOpcodes::ClearDisplay => {
                self.clear_screen();
                self.registers.program_counter = self.registers.program_counter + 2;
                proof {
                    assert(self@ =~~= spec_step(old(self)@, opcode, inputs).0);
                }
                CrispAteExecutionResult::Continue
            },
            CrispsAteDecodedOpcodes::Return => {
                if self.runtime.stack_pointer == 0 {
                    return CrispAteExecutionResult::Halt(CrispAteFault::StackUnderflow);
                }
                self.runtime.stack_pointer = self.runtime.stack_pointer - 1;
                self.registers.program_counter = self.runtime.stack[self.runtime.stack_pointer];
                proof {
                    assert(self@ =~~= spec_step(old(self)@, opcode, inputs).0);
                }
                CrispAteExecutionResult::Continue
            },
            CrispsAteDecodedOpcodes::Jump(nibble) => {
                self.registers.program_counter = nibble;
                CrispAteExecutionResult::Continue
            },
            CrispsAteDecodedOpcodes::CallSubRoutine(nibble) => {
                if self.runtime.stack_pointer >= 16 {
                    return CrispAteExecutionResult::Halt(CrispAteFault::StackOverflow);
                }
                self.runtime.stack[self.runtime.stack_pointer] = self.registers.program_counter;
                self.runtime.stack_pointer = self.runtime.stack_pointer + 1;
                self.registers.program_counter = nibble;
                proof {
                    assert(self@ =~~= spec_step(old(self)@, opcode, inputs).0);
                }
                CrispAteExecutionResult::Continue
            },
            CrispsAteDecodedOpcodes::SkipIfVXEquals(v_no, nibble) => {
                let vx = self.find_v_register(v_no);
                if vx == nibble {
                    self.registers.program_counter = self.registers.program_counter + 4;
                } else {
                    self.registers.program_counter = self.registers.program_counter + 2;
                }
                CrispAteExecutionResult::Continue
            },
            CrispsAteDecodedOpcodes::SkipIfVXNotEqual(v_no, nibble) => {
                let vx = self.find_v_register(v_no);
                if vx != nibble {
                    self.registers.program_counter = self.registers.program_counter + 4;
                } else {
                    self.registers.program_counter = self.registers.program_counter + 2;
                }
                CrispAteExecutionResult::Continue
            },
            CrispsAteDecodedOpcodes::SkipIfVXEqualsVY(v_x_no, v_y_no) => {
                let vx = self.find_v_register(v_x_no);
                let vy = self.find_v_register(v_y_no);
                if vx == vy {
                    self.registers.program_counter = self.registers.program_counter + 4;
                } else {
                    self.registers.program_counter = self.registers.program_counter + 2;
                }
                CrispAteExecutionResult::Continue
            },
            CrispsAteDecodedOpcodes::SetVX(v_no, nibble) => {
                self.set_v_register(v_no, nibble);
                self.registers.program_counter = self.registers.program_counter + 2;
                proof {
                    assert(self@ =~~= spec_step(old(self)@, opcode, inputs).0);
                }
                CrispAteExecutionResult::Continue
            },
            CrispsAteDecodedOpcodes::AddToVX(v_no, nibble) => {
                // The carry flag is not changed by the immediate add.
                let vx = self.find_v_register(v_no);
                let sum: u16 = vx as u16 + nibble as u16;
                self.set_v_register(v_no, (sum % 256) as u8);
                self.registers.program_counter = self.registers.program_counter + 2;
                proof {
                    assert(self@ =~~= spec_step(old(self)@, opcode, inputs).0);
                }
                CrispAteExecutionResult::Continue
            },
            CrispsAteDecodedOpcodes::SetVXToVY(v_x_no, v_y_no) => {
                let vy = self.find_v_register(v_y_no);
                self.set_v_register(v_x_no, vy);
                self.registers.program_counter = self.registers.program_counter + 2;
                proof {
                    assert(self@ =~~= spec_step(old(self)@, opcode, inputs).0);
                }
                CrispAteExecutionResult::Continue
            },
            CrispsAteDecodedOpcodes::SetVXToVXorVY(v_x_no, v_y_no) => {
                let vx = self.find_v_register(v_x_no);
                let vy = self.find_v_register(v_y_no);
                self.set_v_register(v_x_no, vx | vy);
                self.registers.program_counter = self.registers.program_counter + 2;
                proof {
                    assert(self@ =~~= spec_step(old(self)@, opcode, inputs).0);
                }
                CrispAteExecutionResult::Continue
            },
            CrispsAteDecodedOpcodes::SetVXToVXandVY(v_x_no, v_y_no) => {
                let vx = self.find_v_register(v_x_no);
                let vy = self.find_v_register(v_y_no);
                self.set_v_register(v_x_no, vx & vy);
                self.registers.program_counter = self.registers.program_counter + 2;
                proof {
                    assert(self@ =~~= spec_step(old(self)@, opcode, inputs).0);
                }
                CrispAteExecutionResult::Continue
            },
            CrispsAteDecodedOpcodes::SetVXToVXxorVY(v_x_no, v_y_no) => {
                let vx = self.find_v_register(v_x_no);
                let vy = self.find_v_register(v_y_no);
                self.set_v_register(v_x_no, vx ^ vy);
                self.registers.program_counter = self.registers.program_counter + 2;
                proof {
                    assert(self@ =~~= spec_step(old(self)@, opcode, inputs).0);
                }
                CrispAteExecutionResult::Continue
            },
            CrispsAteDecodedOpcodes::AddVYtoVX(v_x_no, v_y_no) => {
                // The flag register reports the carry, overwriting whatever
                // a program stored there.
                let vx = self.find_v_register(v_x_no);
                let vy = self.find_v_register(v_y_no);
                let sum: u16 = vx as u16 + vy as u16;
                let flag: u8 = if sum > 255 {
                    1
                } else {
                    0
                };
                self.set_v_register(v_x_no, (sum % 256) as u8);
                self.set_v_register(0xF, flag);
                self.registers.program_counter = self.registers.program_counter + 2;
                proof {
                    assert(self@ =~~= spec_step(old(self)@, opcode, inputs).0);
                }
                CrispAteExecutionResult::Continue
            },
            CrispsAteDecodedOpcodes::SubtractVYFromVX(v_x_no, v_y_no) => {
                let vx = self.find_v_register(v_x_no);
                let vy = self.find_v_register(v_y_no);
                let flag: u8 = if vx >= vy {
                    1
                } else {
                    0
                };
                let diff: u16 = vx as u16 + 256 - vy as u16;
                self.set_v_register(v_x_no, (diff % 256) as u8);
                self.set_v_register(0xF, flag);
                self.registers.program_counter = self.registers.program_counter + 2;
                proof {
                    assert(self@ =~~= spec_step(old(self)@, opcode, inputs).0);
                }
                CrispAteExecutionResult::Continue
            },
            CrispsAteDecodedOpcodes::StoreLeastBitOfVXAndShiftVXRight(v_no) => {
                let vx = self.find_v_register(v_no);
                let flag: u8 = vx % 2;
                self.set_v_register(v_no, vx / 2);
                self.set_v_register(0xF, flag);
                self.registers.program_counter = self.registers.program_counter + 2;
                proof {
                    assert(self@ =~~= spec_step(old(self)@, opcode, inputs).0);
                }
                CrispAteExecutionResult::Continue
            },
            CrispsAteDecodedOpcodes::SetVXToVYMinusVX(v_x_no, v_y_no) => {
                let vx = self.find_v_register(v_x_no);
                let vy = self.find_v_register(v_y_no);
                let flag: u8 = if vy >= vx {
                    1
                } else {
                    0
                };
                let diff: u16 = vy as u16 + 256 - vx as u16;
                self.set_v_register(v_x_no, (diff % 256) as u8);
                self.set_v_register(0xF, flag);
                self.registers.program_counter = self.registers.program_counter + 2;
                proof {
                    assert(self@ =~~= spec_step(old(self)@, opcode, inputs).0);
                }
                CrispAteExecutionResult::Continue
            },
            CrispsAteDecodedOpcodes::StoreMostBitOfVXAndShiftVXLeft(v_no) => {
                let vx = self.find_v_register(v_no);
                let flag: u8 = vx / 128;
                let shifted: u16 = (vx as u16 * 2) % 256;
                self.set_v_register(v_no, shifted as u8);
                self.set_v_register(0xF, flag);
                self.registers.program_counter = self.registers.program_counter + 2;
                proof {
                    assert(self@ =~~= spec_step(old(self)@, opcode, inputs).0);
                }
                CrispAteExecutionResult::Continue
            },
            CrispsAteDecodedOpcodes::SkipIfVXNotEqualVY(v_x_no, v_y_no) => {
                let vx = self.find_v_register(v_x_no);
                let vy = self.find_v_register(v_y_no);
                if vx != vy {
                    self.registers.program_counter = self.registers.program_counter + 4;
                } else {
                    self.registers.program_counter = self.registers.program_counter + 2;
                }
                CrispAteExecutionResult::Continue
            },
            CrispsAteDecodedOpcodes::SetIAddress(nibble) => {
                self.registers.address = nibble;
                self.registers.program_counter = self.registers.program_counter + 2;
                CrispAteExecutionResult::Continue
            },
            CrispsAteDecodedOpcodes::JumpToAddress(nibble) => {
                let v0 = self.find_v_register(0);
                self.registers.program_counter = nibble + v0 as u16;
                CrispAteExecutionResult::Continue
            },
            CrispsAteDecodedOpcodes::SetVXToBitwiseANDWithSaltAndRandom(v_no, nibble) => {
                self.set_v_register(v_no, inputs.random_byte & nibble);
                self.registers.program_counter = self.registers.program_counter + 2;
                proof {
                    assert(self@ =~~= spec_step(old(self)@, opcode, inputs).0);
                }
                CrispAteExecutionResult::Continue
            },
            CrispsAteDecodedOpcodes::DrawSpriteAt(v_x_no, v_y_no, height) => {
                let vx = self.find_v_register(v_x_no);
                let vy = self.find_v_register(v_y_no);
                let hit = self.draw_sprite_rows(vx % 64, vy % 32, height);
                let flag: u8 = if hit {
                    1
                } else {
                    0
                };
                self.set_v_register(0xF, flag);
                self.registers.draw_flag = true;
                self.registers.program_counter = self.registers.program_counter + 2;
                proof {
                    assert(self@ =~~= spec_step(old(self)@, opcode, inputs).0);
                }
                CrispAteExecutionResult::Continue
            },
            CrispsAteDecodedOpcodes::SkipIfKeyAtVXIsPressed(v_no) => {
                let vx = self.find_v_register(v_no);
                let held = vx < 16 && ((inputs.held_keys >> (vx as u16)) & 1) == 1;
                if held {
                    self.registers.program_counter = self.registers.program_counter + 4;
                } else {
                    self.registers.program_counter = self.registers.program_counter + 2;
                }
                CrispAteExecutionResult::Continue
            },
            CrispsAteDecodedOpcodes::SkipIfKeyAtVXIsNotPressed(v_no) => {
                let vx = self.find_v_register(v_no);
                let held = vx < 16 && ((inputs.held_keys >> (vx as u16)) & 1) == 1;
                if !held {
                    self.registers.program_counter = self.registers.program_counter + 4;
                } else {
                    self.registers.program_counter = self.registers.program_counter + 2;
                }
                CrispAteExecutionResult::Continue
            },
            CrispsAteDecodedOpcodes::SetVXToDelayValue(v_no) => {
                let delay = self.timers.delay;
                self.set_v_register(v_no, delay);
                self.registers.program_counter = self.registers.program_counter + 2;
                proof {
                    assert(self@ =~~= spec_step(old(self)@, opcode, inputs).0);
                }
                CrispAteExecutionResult::Continue
            },
            CrispsAteDecodedOpcodes::GetKeyToVX(v_no) => {
                match inputs.pressed_key {
                    None => CrispAteExecutionResult::AwaitingKeyInput(v_no),
                    Some(key) => {
                        self.set_v_register(v_no, key);
                        self.registers.program_counter = self.registers.program_counter + 2;
                        proof {
                            assert(self@ =~~= spec_step(old(self)@, opcode, inputs).0);
                        }
                        CrispAteExecutionResult::Continue
                    },
                }
            },
            CrispsAteDecodedOpcodes::SetDelayToVX(v_no) => {
                self.timers.delay = self.find_v_register(v_no);
                self.registers.program_counter = self.registers.program_counter + 2;
                CrispAteExecutionResult::Continue
            },
            CrispsAteDecodedOpcodes::SetSoundToVX(v_no) => {
                self.timers.sound = self.find_v_register(v_no);
                self.registers.program_counter = self.registers.program_counter + 2;
                CrispAteExecutionResult::Continue
            },
            CrispsAteDecodedOpcodes::AddVXToI(v_no) => {
                // The flag register is not affected; the sum wraps within
                // the 16-bit address register.
                let vx = self.find_v_register(v_no);
                let sum: u32 = self.registers.address as u32 + vx as u32;
                self.registers.address = (sum % 0x10000) as u16;
                self.registers.program_counter = self.registers.program_counter + 2;
                CrispAteExecutionResult::Continue
            },
            CrispsAteDecodedOpcodes::SetIToLocationOfVXChar(v_no) => {
                let vx = self.find_v_register(v_no);
                if vx > 0xF {
                    return CrispAteExecutionResult::Halt(CrispAteFault::InvalidGlyphIndex);
                }
                self.registers.address = 0x50 + 5 * (vx as u16);
                self.registers.program_counter = self.registers.program_counter + 2;
                CrispAteExecutionResult::Continue
            },
            CrispsAteDecodedOpcodes::StoreBinaryCodedDecimalVX(v_no) => {
                let vx = self.find_v_register(v_no);
                let address = self.registers.address as usize;
                self.memory[address] = vx / 100;
                self.memory[address + 1] = (vx / 10) % 10;
                self.memory[address + 2] = vx % 10;
                self.registers.program_counter = self.registers.program_counter + 2;
                proof {
                    assert(self@ =~~= spec_step(old(self)@, opcode, inputs).0);
                }
                CrispAteExecutionResult::Continue
            },
            CrispsAteDecodedOpcodes::StoreFromV0ToVXStartingFromI(v_no) => {
                self.store_register_range(v_no);
                self.registers.program_counter = self.registers.program_counter + 2;
                proof {
                    assert(self@ =~~= spec_step(old(self)@, opcode, inputs).0);
                }
                CrispAteExecutionResult::Continue
            },
            CrispsAteDecodedOpcodes::FillFromV0ToVXStartingFromI(v_no) => {
                self.fill_register_range(v_no);
                self.registers.program_counter = self.registers.program_counter + 2;
                proof {
                    assert(self@ =~~= spec_step(old(self)@, opcode, inputs).0);
                }
                CrispAteExecutionResult::Continue
            },
            CrispsAteDecodedOpcodes::Unknown(word) => {
                CrispAteExecutionResult::Halt(CrispAteFault::UnrecognizedOpcode(word))
            },
        }
    }

    /// Whether the machine can run one cycle within its bounds: the
    /// instruction word lies in memory and the instruction it decodes to
    /// keeps every access inside the 4096 cells. The front end checks this
    /// before each cycle; a program that fails it has run outside the
    /// machine's addressable space.
    pub fn cycle_ready(&self) -> (ready: bool)
        requires
            self.wf(),
        ensures
            ready == cycle_safe(self@),
    {
        if !(self.registers.program_counter < 4095) {
            return false;
        }
        let opcode = self.fetch_and_decode();
        let pc = self.registers.program_counter;
        let address = self.registers.address;
        match opcode {
            CrispsAteDecodedOpcodes::Return => true,
            CrispsAteDecodedOpcodes::Jump(_) => true,
            CrispsAteDecodedOpcodes::CallSubRoutine(_) => true,
            CrispsAteDecodedOpcodes::JumpToAddress(_) => true,
            CrispsAteDecodedOpcodes::Unknown(_) => true,
            CrispsAteDecodedOpcodes::DrawSpriteAt(_, _, n) => address as u32 + n as u32 <= 4096,
            CrispsAteDecodedOpcodes::StoreBinaryCodedDecimalVX(_) => address as u32 + 3 <= 4096,
            CrispsAteDecodedOpcodes::StoreFromV0ToVXStartingFromI(x) => address as u32 + x as u32
                + 1 <= 4096,
            CrispsAteDecodedOpcodes::FillFromV0ToVXStartingFromI(x) => address as u32 + x as u32
                + 1 <= 4096,
            _ => true,
        }
    }

    /// One full cycle: fetch and decode the word at the program counter,
    /// execute it, then drain the timers. The outcome carries the execution
    /// signal and whether the sound timer passed through one, which asks for
    /// a tone.
    pub fn emulation_cyle(&mut self, inputs: CrispAteInputs) -> (outcome: CrispAteCycleOutcome)
        requires
            old(self).wf(),
            inputs.wf(),
            cycle_safe(old(self)@),
        ensures
            final(self)@ == spec_cycle(old(self)@, inputs).0,
            outcome == spec_cycle(old(self)@, inputs).1,
            final(self).wf(),
    {
        let opcode = self.fetch_and_decode();
        let result = self.execute(opcode, inputs);
        if self.timers.delay > 0 {
            self.timers.delay = self.timers.delay - 1;
        }
        let sound_tone = self.timers.sound == 1;
        if self.timers.sound > 0 {
            self.timers.sound = self.timers.sound - 1;
        }
        proof {
            assert(self@ =~~= spec_cycle(old(self)@, inputs).0);
        }
        CrispAteCycleOutcome { result, sound_tone }
    }

    /// Refills registers 0 through `x` inclusive from memory starting at the
    /// address register; the address register itself is left as it was.
    fn fill_register_range(&mut self, x: u8)
        requires
            old(self).wf(),
            x < 16,
            old(self)@.address + x + 1 <= 4096,
        ensures
            final(self)@ == (CrispAteView {
                vregs: load_regs(
                    old(self)@.vregs,
                    old(self)@.memory,
                    old(self)@.address as int,
                    x + 1,
                ),
                ..old(self)@
            }),
    {
        let ghost s0 = self@;
        let mut i: u8 = 0;
        while i <= x
            invariant
                s0.wf(),
                x < 16,
                i <= x + 1,
                s0.address + x + 1 <= 4096,
                self@ == (CrispAteView { vregs: self@.vregs, ..s0 }),
                self@.vregs.len() == 16,
                self@.vregs == load_regs(s0.vregs, s0.memory, s0.address as int, i as int),
            decreases x + 1 - i,
        {
            let b = self.memory[(self.registers.address + i as u16) as usize];
            self.set_v_register(i, b);
            i = i + 1;
        }
    }
}

/// The glyph table as bytes, in glyph order.
fn font_bytes() -> (font: Vec<u8>)
    ensures
        font@ == font_data(),
{
    let font: Vec<u8> = vec![
        0xF0, 0x90, 0x90, 0x90, 0xF0,
        0x20, 0x60, 0x20, 0x20, 0x70,
        0xF0, 0x10, 0xF0, 0x80, 0xF0,
        0xF0, 0x10, 0xF0, 0x10, 0xF0,
        0x90, 0x90, 0xF0, 0x10, 0x10,
        0xF0, 0x80, 0xF0, 0x10, 0xF0,
        0xF0, 0x80, 0xF0, 0x90, 0xF0,
        0xF0, 0x10, 0x20, 0x40, 0x40,
        0xF0, 0x90, 0xF0, 0x90, 0xF0,
        0xF0, 0x90, 0xF0, 0x10, 0xF0,
        0xF0, 0x90, 0xF0, 0x90, 0x90,
        0xE0, 0x90, 0xE0, 0x90, 0xE0,
        0xF0, 0x80, 0x80, 0x80, 0xF0,
        0xE0, 0x90, 0x90, 0x90, 0xE0,
        0xF0, 0x80, 0xF0, 0x80, 0xF0,
        0xF0, 0x80, 0xF0, 0x80, 0x80,
    ];
    proof {
        assert(font@ =~= font_data());
    }
    font
}

} // verus!
