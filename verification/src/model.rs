//! The mathematical model of the machine: the abstract state, the meaning of
//! every instruction word, and the state transition each instruction
//! performs. The executable decoder and execution engine are verified
//! against the functions in this module.

use crate::registers::CrispsAteDecodedOpcodes;
use crate::runtime::{CrispAteCycleOutcome, CrispAteExecutionResult, CrispAteFault, CrispAteInputs};
use vstd::prelude::*;

verus! {

/// The abstract machine state: 4096 memory cells, sixteen 8-bit registers,
/// the address register, the program counter, the 64x32 framebuffer in
/// row-major order, the two timers, and the call stack.
pub ghost struct CrispAteView {
    pub memory: Seq<u8>,
    pub vregs: Seq<u8>,
    pub address: u16,
    pub program_counter: u16,
    pub draw_flag: bool,
    pub screen: Seq<bool>,
    pub delay: u8,
    pub sound: u8,
    pub stack: Seq<u16>,
    pub stack_pointer: int,
    pub debug_mode: bool,
}

impl CrispAteView {
    /// The fixed shape of the machine: memory, register file, framebuffer
    /// and stack have their architectural sizes and the stack pointer never
    /// leaves the stack.
    pub open spec fn wf(&self) -> bool {
        &&& self.memory.len() == 4096
        &&& self.vregs.len() == 16
        &&& self.screen.len() == 64 * 32
        &&& self.stack.len() == 16
        &&& 0 <= self.stack_pointer <= 16
    }
}

// ---------------------------------------------------------------------------
// Decoding
// ---------------------------------------------------------------------------

/// The most significant nibble of an instruction word.
pub open spec fn nibble_1(w: u16) -> u16 {
    w >> 12
}

/// The second nibble, usually a register operand.
pub open spec fn nibble_2(w: u16) -> u16 {
    (w >> 8) & 0xF
}

/// The third nibble, usually a second register operand.
pub open spec fn nibble_3(w: u16) -> u16 {
    (w >> 4) & 0xF
}

/// The least significant nibble.
pub open spec fn nibble_4(w: u16) -> u16 {
    w & 0xF
}

/// The low byte, usually an immediate.
pub open spec fn low_byte(w: u16) -> u16 {
    w & 0xFF
}

/// The low 12 bits, usually an address.
pub open spec fn low_12_bits(w: u16) -> u16 {
    w & 0xFFF
}

/// Every nibble is below 16, the low byte below 256, and the low 12 bits
/// below 4096.
pub proof fn lemma_field_bounds(w: u16)
    by (bit_vector)
    ensures
        w >> 12 < 16,
        (w >> 8) & 0xF < 16,
        (w >> 4) & 0xF < 16,
        w & 0xF < 16,
        w & 0xFF < 256,
        w & 0xFFF < 4096,
{
}

/// The meaning of an instruction word: which operation it selects and which
/// operand fields it carries. Total: every word maps to exactly one variant,
/// with `Unknown` carrying any word that matches no known form.
pub open spec fn spec_decode(w: u16) -> CrispsAteDecodedOpcodes {
    let x = nibble_2(w) as u8;
    let y = nibble_3(w) as u8;
    let n = nibble_4(w) as u8;
    let nn = low_byte(w) as u8;
    let nnn = low_12_bits(w);
    if nibble_1(w) == 0x0 {
        if nibble_4(w) == 0x0 {
            CrispsAteDecodedOpcodes::ClearDisplay
        } else if nibble_4(w) == 0xE {
            CrispsAteDecodedOpcodes::Return
        } else {
            CrispsAteDecodedOpcodes::Call(nnn)
        }
    } else if nibble_1(w) == 0x1 {
        CrispsAteDecodedOpcodes::Jump(nnn)
    } else if nibble_1(w) == 0x2 {
        CrispsAteDecodedOpcodes::CallSubRoutine(nnn)
    } else if nibble_1(w) == 0x3 {
        CrispsAteDecodedOpcodes::SkipIfVXEquals(x, nn)
    } else if nibble_1(w) == 0x4 {
        CrispsAteDecodedOpcodes::SkipIfVXNotEqual(x, nn)
    } else if nibble_1(w) == 0x5 {
        CrispsAteDecodedOpcodes::SkipIfVXEqualsVY(x, y)
    } else if nibble_1(w) == 0x6 {
        CrispsAteDecodedOpcodes::SetVX(x, nn)
    } else if nibble_1(w) == 0x7 {
        CrispsAteDecodedOpcodes::AddToVX(x, nn)
    } else if nibble_1(w) == 0x8 {
        if nibble_4(w) == 0x0 {
            CrispsAteDecodedOpcodes::SetVXToVY(x, y)
        } else if nibble_4(w) == 0x1 {
            CrispsAteDecodedOpcodes::SetVXToVXorVY(x, y)
        } else if nibble_4(w) == 0x2 {
            CrispsAteDecodedOpcodes::SetVXToVXandVY(x, y)
        } else if nibble_4(w) == 0x3 {
            CrispsAteDecodedOpcodes::SetVXToVXxorVY(x, y)
        } else if nibble_4(w) == 0x4 {
            CrispsAteDecodedOpcodes::AddVYtoVX(x, y)
        } else if nibble_4(w) == 0x5 {
            CrispsAteDecodedOpcodes::SubtractVYFromVX(x, y)
        } else if nibble_4(w) == 0x6 {
            CrispsAteDecodedOpcodes::StoreLeastBitOfVXAndShiftVXRight(x)
        } else if nibble_4(w) == 0x7 {
            CrispsAteDecodedOpcodes::SetVXToVYMinusVX(x, y)
        } else if nibble_4(w) == 0xE {
            CrispsAteDecodedOpcodes::StoreMostBitOfVXAndShiftVXLeft(x)
        } else {
            CrispsAteDecodedOpcodes::Unknown(w)
        }
    } else if nibble_1(w) == 0x9 {
        CrispsAteDecodedOpcodes::SkipIfVXNotEqualVY(x, y)
    } else if nibble_1(w) == 0xA {
        CrispsAteDecodedOpcodes::SetIAddress(nnn)
    } else if nibble_1(w) == 0xB {
        CrispsAteDecodedOpcodes::JumpToAddress(nnn)
    } else if nibble_1(w) == 0xC {
        CrispsAteDecodedOpcodes::SetVXToBitwiseANDWithSaltAndRandom(x, nn)
    } else if nibble_1(w) == 0xD {
        CrispsAteDecodedOpcodes::DrawSpriteAt(x, y, n)
    } else if nibble_1(w) == 0xE {
        if low_byte(w) == 0x9E {
            CrispsAteDecodedOpcodes::SkipIfKeyAtVXIsPressed(x)
        } else if low_byte(w) == 0xA1 {
            CrispsAteDecodedOpcodes::SkipIfKeyAtVXIsNotPressed(x)
        } else {
            CrispsAteDecodedOpcodes::Unknown(w)
        }
    } else if nibble_1(w) == 0xF {
        if low_byte(w) == 0x07 {
            CrispsAteDecodedOpcodes::SetVXToDelayValue(x)
        } else if low_byte(w) == 0x0A {
            CrispsAteDecodedOpcodes::GetKeyToVX(x)
        } else if low_byte(w) == 0x15 {
            CrispsAteDecodedOpcodes::SetDelayToVX(x)
        } else if low_byte(w) == 0x18 {
            CrispsAteDecodedOpcodes::SetSoundToVX(x)
        } else if low_byte(w) == 0x1E {
            CrispsAteDecodedOpcodes::AddVXToI(x)
        } else if low_byte(w) == 0x29 {
            CrispsAteDecodedOpcodes::SetIToLocationOfVXChar(x)
        } else if low_byte(w) == 0x33 {
            CrispsAteDecodedOpcodes::StoreBinaryCodedDecimalVX(x)
        } else if low_byte(w) == 0x55 {
            CrispsAteDecodedOpcodes::StoreFromV0ToVXStartingFromI(x)
        } else if low_byte(w) == 0x65 {
            CrispsAteDecodedOpcodes::FillFromV0ToVXStartingFromI(x)
        } else {
            CrispsAteDecodedOpcodes::Unknown(w)
        }
    } else {
        CrispsAteDecodedOpcodes::Unknown(w)
    }
}

/// A decoded instruction whose operand fields are in range: register
/// operands name one of the sixteen registers, addresses fit in 12 bits, and
/// a sprite height fits in a nibble. The decoder only ever produces such
/// values.
pub open spec fn opcode_wf(op: CrispsAteDecodedOpcodes) -> bool {
    match op {
        CrispsAteDecodedOpcodes::Call(a) => a < 0x1000,
        CrispsAteDecodedOpcodes::ClearDisplay => true,
        CrispsAteDecodedOpcodes::Return => true,
        CrispsAteDecodedOpcodes::Jump(a) => a < 0x1000,
        CrispsAteDecodedOpcodes::CallSubRoutine(a) => a < 0x1000,
        CrispsAteDecodedOpcodes::SkipIfVXEquals(x, _) => x < 16,
        CrispsAteDecodedOpcodes::SkipIfVXNotEqual(x, _) => x < 16,
        CrispsAteDecodedOpcodes::SkipIfVXEqualsVY(x, y) => x < 16 && y < 16,
        CrispsAteDecodedOpcodes::SetVX(x, _) => x < 16,
        CrispsAteDecodedOpcodes::AddToVX(x, _) => x < 16,
        CrispsAteDecodedOpcodes::SetVXToVY(x, y) => x < 16 && y < 16,
        CrispsAteDecodedOpcodes::SetVXToVXorVY(x, y) => x < 16 && y < 16,
        CrispsAteDecodedOpcodes::SetVXToVXandVY(x, y) => x < 16 && y < 16,
        CrispsAteDecodedOpcodes::SetVXToVXxorVY(x, y) => x < 16 && y < 16,
        CrispsAteDecodedOpcodes::AddVYtoVX(x, y) => x < 16 && y < 16,
        CrispsAteDecodedOpcodes::SubtractVYFromVX(x, y) => x < 16 && y < 16,
        CrispsAteDecodedOpcodes::StoreLeastBitOfVXAndShiftVXRight(x) => x < 16,
        CrispsAteDecodedOpcodes::SetVXToVYMinusVX(x, y) => x < 16 && y < 16,
        CrispsAteDecodedOpcodes::StoreMostBitOfVXAndShiftVXLeft(x) => x < 16,
        CrispsAteDecodedOpcodes::SkipIfVXNotEqualVY(x, y) => x < 16 && y < 16,
        CrispsAteDecodedOpcodes::SetIAddress(a) => a < 0x1000,
        CrispsAteDecodedOpcodes::JumpToAddress(a) => a < 0x1000,
        CrispsAteDecodedOpcodes::SetVXToBitwiseANDWithSaltAndRandom(x, _) => x < 16,
        CrispsAteDecodedOpcodes::DrawSpriteAt(x, y, n) => x < 16 && y < 16 && n < 16,
        CrispsAteDecodedOpcodes::SkipIfKeyAtVXIsPressed(x) => x < 16,
        CrispsAteDecodedOpcodes::SkipIfKeyAtVXIsNotPressed(x) => x < 16,
        CrispsAteDecodedOpcodes::SetVXToDelayValue(x) => x < 16,
        CrispsAteDecodedOpcodes::GetKeyToVX(x) => x < 16,
        CrispsAteDecodedOpcodes::SetDelayToVX(x) => x < 16,
        CrispsAteDecodedOpcodes::SetSoundToVX(x) => x < 16,
        CrispsAteDecodedOpcodes::AddVXToI(x) => x < 16,
        CrispsAteDecodedOpcodes::SetIToLocationOfVXChar(x) => x < 16,
        CrispsAteDecodedOpcodes::StoreBinaryCodedDecimalVX(x) => x < 16,
        CrispsAteDecodedOpcodes::StoreFromV0ToVXStartingFromI(x) => x < 16,
        CrispsAteDecodedOpcodes::FillFromV0ToVXStartingFromI(x) => x < 16,
        CrispsAteDecodedOpcodes::Unknown(_) => true,
    }
}

/// Every word decodes to a well-formed instruction.
pub proof fn lemma_decode_wf(w: u16)
    ensures
        opcode_wf(spec_decode(w)),
{
    lemma_field_bounds(w);
}

// ---------------------------------------------------------------------------
// Key state
// ---------------------------------------------------------------------------

/// Whether the key named by `code` is held in the key bitmask. Codes outside
/// the sixteen keys name no key and are never held.
pub open spec fn key_held(held_keys: u16, code: u8) -> bool {
    code < 16 && ((held_keys >> (code as u16)) & 1) == 1
}

// ---------------------------------------------------------------------------
// Sprite drawing
// ---------------------------------------------------------------------------

/// Bit `col` of a sprite row byte, most significant bit first.
pub open spec fn sprite_bit(b: u8, col: int) -> bool {
    b & (0x80u8 >> (col as u8)) != 0
}

/// The framebuffer cell a sprite bit lands on: each axis wraps
/// independently.
pub open spec fn draw_index(bx: int, by: int, col: int, row: int) -> int {
    ((by + row) % 32) * 64 + ((bx + col) % 64)
}

/// One sprite row applied to the framebuffer, bits 0 through `ncols - 1`:
/// each set bit toggles its cell; the second component reports whether any
/// toggled cell was lit beforehand.
pub open spec fn draw_row(
    fb: Seq<bool>,
    b: u8,
    bx: int,
    by: int,
    row: int,
    ncols: int,
) -> (Seq<bool>, bool)
    decreases ncols,
{
    if ncols <= 0 {
        (fb, false)
    } else {
        let col = ncols - 1;
        let (fb1, hit1) = draw_row(fb, b, bx, by, row, col);
        if sprite_bit(b, col) {
            let idx = draw_index(bx, by, col, row);
            (fb1.update(idx, !fb1[idx]), hit1 || fb1[idx])
        } else {
            (fb1, hit1)
        }
    }
}

/// A whole sprite applied to the framebuffer: rows 0 through `nrows - 1`,
/// each read from memory at the address register plus the row number. The
/// second component is the collision flag, sticky across all rows.
pub open spec fn draw_sprite(
    fb: Seq<bool>,
    memory: Seq<u8>,
    address: int,
    bx: int,
    by: int,
    nrows: int,
) -> (Seq<bool>, bool)
    decreases nrows,
{
    if nrows <= 0 {
        (fb, false)
    } else {
        let row = nrows - 1;
        let (fb1, hit1) = draw_sprite(fb, memory, address, bx, by, row);
        let (fb2, hit2) = draw_row(fb1, memory[address + row], bx, by, row, 8);
        (fb2, hit1 || hit2)
    }
}

// ---------------------------------------------------------------------------
// Register ranges and memory
// ---------------------------------------------------------------------------

/// Registers 0 through `n - 1` copied into memory starting at `address`.
pub open spec fn store_regs(memory: Seq<u8>, vregs: Seq<u8>, address: int, n: int) -> Seq<u8>
    decreases n,
{
    if n <= 0 {
        memory
    } else {
        store_regs(memory, vregs, address, n - 1).update(address + (n - 1), vregs[n - 1])
    }
}

/// Registers 0 through `n - 1` refilled from memory starting at `address`.
pub open spec fn load_regs(vregs: Seq<u8>, memory: Seq<u8>, address: int, n: int) -> Seq<u8>
    decreases n,
{
    if n <= 0 {
        vregs
    } else {
        load_regs(vregs, memory, address, n - 1).update(n - 1, memory[address + (n - 1)])
    }
}

// ---------------------------------------------------------------------------
// Initialization
// ---------------------------------------------------------------------------

/// The fixed glyph table: sixteen 4x5-pixel bitmaps for the hexadecimal
/// digits, five bytes each.
pub open spec fn font_data() -> Seq<u8> {
    seq![
        0xF0u8, 0x90, 0x90, 0x90, 0xF0,
        0x20, 0x60, 0x20, 0x20, 0x70,
        0xF0, 0x10, 0xF0, 0x80, 0xF0,
        0xF0, 0x10, 0xF0, 0x10, 0xF0,
        0x90, 0x90, 0xF0, 0x10, 0x10,
        0xF0, 0x80, 0xF0, 0x10, 0xF0,
        0xF0, 0x80, 0xF0, 0x90, 0xF0,
        0xF0, 0x10, 0x20, 0x40, 0x40,
        0xF0, 0x90, 0xF0, 0x90, 0xF0,
        0xF0, 0x90, 0xF0, 0x10, 0xF0,
        0xF0, 0x90, 0xF0, 0x90, 0x90,
        0xE0, 0x90, 0xE0, 0x90, 0xE0,
        0xF0, 0x80, 0x80, 0x80, 0xF0,
        0xE0, 0x90, 0x90, 0x90, 0xE0,
        0xF0, 0x80, 0xF0, 0x80, 0xF0,
        0xF0, 0x80, 0xF0, 0x80, 0x80,
    ]
}

/// Memory after initialization: the glyph table at 0x050, the program image
/// verbatim from 0x200 on, and every other cell as it was.
pub open spec fn init_memory(memory: Seq<u8>, program: Seq<u8>) -> Seq<u8> {
    Seq::new(
        4096,
        |i: int|
            if 0x50 <= i < 0xA0 {
                font_data()[i - 0x50]
            } else if 0x200 <= i < 0x200 + program.len() {
                program[i - 0x200]
            } else {
                memory[i]
            },
    )
}

// ---------------------------------------------------------------------------
// The step function
// ---------------------------------------------------------------------------

/// The state with the program counter advanced past one instruction word, or
/// past two when a skip condition held.
pub open spec fn advanced(s: CrispAteView, skip: bool) -> CrispAteView {
    CrispAteView { program_counter: (s.program_counter + if skip { 4int } else { 2int }) as u16, ..s }
}

/// The bounds one instruction needs so that the executable engine can run it
/// without any arithmetic leaving its type or any memory access leaving the
/// 4096 cells. Violating these is the one thing the engine's caller must
/// rule out itself; within them every outcome, including every fault, is
/// defined.
pub open spec fn step_safe(s: CrispAteView, op: CrispsAteDecodedOpcodes) -> bool {
    match op {
        CrispsAteDecodedOpcodes::Return => true,
        CrispsAteDecodedOpcodes::Jump(_) => true,
        CrispsAteDecodedOpcodes::CallSubRoutine(_) => true,
        CrispsAteDecodedOpcodes::JumpToAddress(_) => true,
        CrispsAteDecodedOpcodes::Unknown(_) => true,
        CrispsAteDecodedOpcodes::SkipIfVXEquals(_, _) => s.program_counter + 4 <= u16::MAX,
        CrispsAteDecodedOpcodes::SkipIfVXNotEqual(_, _) => s.program_counter + 4 <= u16::MAX,
        CrispsAteDecodedOpcodes::SkipIfVXEqualsVY(_, _) => s.program_counter + 4 <= u16::MAX,
        CrispsAteDecodedOpcodes::SkipIfVXNotEqualVY(_, _) => s.program_counter + 4 <= u16::MAX,
        CrispsAteDecodedOpcodes::SkipIfKeyAtVXIsPressed(_) => s.program_counter + 4 <= u16::MAX,
        CrispsAteDecodedOpcodes::SkipIfKeyAtVXIsNotPressed(_) => s.program_counter + 4 <= u16::MAX,
        CrispsAteDecodedOpcodes::DrawSpriteAt(_, _, n) => s.program_counter + 2 <= u16::MAX
            && s.address + n <= 4096,
        CrispsAteDecodedOpcodes::StoreBinaryCodedDecimalVX(_) => s.program_counter + 2 <= u16::MAX
            && s.address + 3 <= 4096,
        CrispsAteDecodedOpcodes::StoreFromV0ToVXStartingFromI(x) => s.program_counter + 2
            <= u16::MAX && s.address + x + 1 <= 4096,
        CrispsAteDecodedOpcodes::FillFromV0ToVXStartingFromI(x) => s.program_counter + 2
            <= u16::MAX && s.address + x + 1 <= 4096,
        _ => s.program_counter + 2 <= u16::MAX,
    }
}

/// The effect of one decoded instruction on the machine state, together with
/// the signal it reports. A faulting instruction leaves the state untouched
/// and reports the fault; a blocked key wait leaves the state untouched so
/// the same instruction is retried.
pub open spec fn spec_step(
    s: CrispAteView,
    op: CrispsAteDecodedOpcodes,
    inputs: CrispAteInputs,
) -> (CrispAteView, CrispAteExecutionResult) {
    let cont = CrispAteExecutionResult::Continue;
    match op {
        CrispsAteDecodedOpcodes::Call(_) => (advanced(s, false), cont),
        CrispsAteDecodedOpcodes::ClearDisplay => (
            CrispAteView { screen: Seq::new(64 * 32, |i: int| false), ..advanced(s, false) },
            cont,
        ),
        CrispsAteDecodedOpcodes::Return => if s.stack_pointer == 0 {
            (s, CrispAteExecutionResult::Halt(CrispAteFault::StackUnderflow))
        } else {
            (
                CrispAteView {
                    stack_pointer: s.stack_pointer - 1,
                    program_counter: s.stack[s.stack_pointer - 1],
                    ..s
                },
                cont,
            )
        },
        CrispsAteDecodedOpcodes::Jump(a) => (CrispAteView { program_counter: a, ..s }, cont),
        CrispsAteDecodedOpcodes::CallSubRoutine(a) => if s.stack_pointer >= 16 {
            (s, CrispAteExecutionResult::Halt(CrispAteFault::StackOverflow))
        } else {
            (
                CrispAteView {
                    stack: s.stack.update(s.stack_pointer, s.program_counter),
                    stack_pointer: s.stack_pointer + 1,
                    program_counter: a,
                    ..s
                },
                cont,
            )
        },
        CrispsAteDecodedOpcodes::SkipIfVXEquals(x, nn) => (
            advanced(s, s.vregs[x as int] == nn),
            cont,
        ),
        CrispsAteDecodedOpcodes::SkipIfVXNotEqual(x, nn) => (
            advanced(s, s.vregs[x as int] != nn),
            cont,
        ),
        CrispsAteDecodedOpcodes::SkipIfVXEqualsVY(x, y) => (
            advanced(s, s.vregs[x as int] == s.vregs[y as int]),
            cont,
        ),
        CrispsAteDecodedOpcodes::SetVX(x, nn) => (
            CrispAteView { vregs: s.vregs.update(x as int, nn), ..advanced(s, false) },
            cont,
        ),
        CrispsAteDecodedOpcodes::AddToVX(x, nn) => (
            CrispAteView {
                vregs: s.vregs.update(x as int, ((s.vregs[x as int] + nn) % 256) as u8),
                ..advanced(s, false)
            },
            cont,
        ),
        CrispsAteDecodedOpcodes::SetVXToVY(x, y) => (
            CrispAteView {
                vregs: s.vregs.update(x as int, s.vregs[y as int]),
                ..advanced(s, false)
            },
            cont,
        ),
        CrispsAteDecodedOpcodes::SetVXToVXorVY(x, y) => (
            CrispAteView {
                vregs: s.vregs.update(x as int, s.vregs[x as int] | s.vregs[y as int]),
                ..advanced(s, false)
            },
            cont,
        ),
        CrispsAteDecodedOpcodes::SetVXToVXandVY(x, y) => (
            CrispAteView {
                vregs: s.vregs.update(x as int, s.vregs[x as int] & s.vregs[y as int]),
                ..advanced(s, false)
            },
            cont,
        ),
        CrispsAteDecodedOpcodes::SetVXToVXxorVY(x, y) => (
            CrispAteView {
                vregs: s.vregs.update(x as int, s.vregs[x as int] ^ s.vregs[y as int]),
                ..advanced(s, false)
            },
            cont,
        ),
        CrispsAteDecodedOpcodes::AddVYtoVX(x, y) => (
            CrispAteView {
                vregs: s.vregs.update(
                    x as int,
                    ((s.vregs[x as int] + s.vregs[y as int]) % 256) as u8,
                ).update(15, if s.vregs[x as int] + s.vregs[y as int] > 255 { 1u8 } else { 0u8 }),
                ..advanced(s, false)
            },
            cont,
        ),
        CrispsAteDecodedOpcodes::SubtractVYFromVX(x, y) => (
            CrispAteView {
                vregs: s.vregs.update(
                    x as int,
                    ((s.vregs[x as int] - s.vregs[y as int] + 256) % 256) as u8,
                ).update(15, if s.vregs[x as int] >= s.vregs[y as int] { 1u8 } else { 0u8 }),
                ..advanced(s, false)
            },
            cont,
        ),
        CrispsAteDecodedOpcodes::StoreLeastBitOfVXAndShiftVXRight(x) => (
            CrispAteView {
                vregs: s.vregs.update(x as int, (s.vregs[x as int] / 2) as u8).update(
                    15,
                    (s.vregs[x as int] % 2) as u8,
                ),
                ..advanced(s, false)
            },
            cont,
        ),
        CrispsAteDecodedOpcodes::SetVXToVYMinusVX(x, y) => (
            CrispAteView {
                vregs: s.vregs.update(
                    x as int,
                    ((s.vregs[y as int] - s.vregs[x as int] + 256) % 256) as u8,
                ).update(15, if s.vregs[y as int] >= s.vregs[x as int] { 1u8 } else { 0u8 }),
                ..advanced(s, false)
            },
            cont,
        ),
        CrispsAteDecodedOpcodes::StoreMostBitOfVXAndShiftVXLeft(x) => (
            CrispAteView {
                vregs: s.vregs.update(x as int, ((s.vregs[x as int] * 2) % 256) as u8).update(
                    15,
                    (s.vregs[x as int] / 128) as u8,
                ),
                ..advanced(s, false)
            },
            cont,
        ),
        CrispsAteDecodedOpcodes::SkipIfVXNotEqualVY(x, y) => (
            advanced(s, s.vregs[x as int] != s.vregs[y as int]),
            cont,
        ),
        CrispsAteDecodedOpcodes::SetIAddress(a) => (
            CrispAteView { address: a, ..advanced(s, false) },
            cont,
        ),
        CrispsAteDecodedOpcodes::JumpToAddress(a) => (
            CrispAteView { program_counter: (a + s.vregs[0]) as u16, ..s },
            cont,
        ),
        CrispsAteDecodedOpcodes::SetVXToBitwiseANDWithSaltAndRandom(x, nn) => (
            CrispAteView {
                vregs: s.vregs.update(x as int, inputs.random_byte & nn),
                ..advanced(s, false)
            },
            cont,
        ),
        CrispsAteDecodedOpcodes::DrawSpriteAt(x, y, n) => {
            let bx = s.vregs[x as int] % 64;
            let by = s.vregs[y as int] % 32;
            let (fb, hit) = draw_sprite(
                s.screen,
                s.memory,
                s.address as int,
                bx as int,
                by as int,
                n as int,
            );
            (
                CrispAteView {
                    screen: fb,
                    vregs: s.vregs.update(15, if hit { 1u8 } else { 0u8 }),
                    draw_flag: true,
                    ..advanced(s, false)
                },
                cont,
            )
        },
        CrispsAteDecodedOpcodes::SkipIfKeyAtVXIsPressed(x) => (
            advanced(s, key_held(inputs.held_keys, s.vregs[x as int])),
            cont,
        ),
        CrispsAteDecodedOpcodes::SkipIfKeyAtVXIsNotPressed(x) => (
            advanced(s, !key_held(inputs.held_keys, s.vregs[x as int])),
            cont,
        ),
        CrispsAteDecodedOpcodes::SetVXToDelayValue(x) => (
            CrispAteView { vregs: s.vregs.update(x as int, s.delay), ..advanced(s, false) },
            cont,
        ),
        CrispsAteDecodedOpcodes::GetKeyToVX(x) => match inputs.pressed_key {
            Option::None => (s, CrispAteExecutionResult::AwaitingKeyInput(x)),
            Option::Some(k) => (
                CrispAteView { vregs: s.vregs.update(x as int, k), ..advanced(s, false) },
                cont,
            ),
        },
        CrispsAteDecodedOpcodes::SetDelayToVX(x) => (
            CrispAteView { delay: s.vregs[x as int], ..advanced(s, false) },
            cont,
        ),
        CrispsAteDecodedOpcodes::SetSoundToVX(x) => (
            CrispAteView { sound: s.vregs[x as int], ..advanced(s, false) },
            cont,
        ),
        CrispsAteDecodedOpcodes::AddVXToI(x) => (
            CrispAteView {
                address: ((s.address + s.vregs[x as int]) % 0x10000) as u16,
                ..advanced(s, false)
            },
            cont,
        ),
        CrispsAteDecodedOpcodes::SetIToLocationOfVXChar(x) => if s.vregs[x as int] > 0xF {
            (s, CrispAteExecutionResult::Halt(CrispAteFault::InvalidGlyphIndex))
        } else {
            (
                CrispAteView {
                    address: (0x50 + 5 * s.vregs[x as int]) as u16,
                    ..advanced(s, false)
                },
                cont,
            )
        },
        CrispsAteDecodedOpcodes::StoreBinaryCodedDecimalVX(x) => (
            CrispAteView {
                memory: s.memory.update(s.address as int, (s.vregs[x as int] / 100) as u8).update(
                    s.address + 1,
                    ((s.vregs[x as int] / 10) % 10) as u8,
                ).update(s.address + 2, (s.vregs[x as int] % 10) as u8),
                ..advanced(s, false)
            },
            cont,
        ),
        CrispsAteDecodedOpcodes::StoreFromV0ToVXStartingFromI(x) => (
            CrispAteView {
                memory: store_regs(s.memory, s.vregs, s.address as int, x + 1),
                ..advanced(s, false)
            },
            cont,
        ),
        CrispsAteDecodedOpcodes::FillFromV0ToVXStartingFromI(x) => (
            CrispAteView {
                vregs: load_regs(s.vregs, s.memory, s.address as int, x + 1),
                ..advanced(s, false)
            },
            cont,
        ),
        CrispsAteDecodedOpcodes::Unknown(w) => (
            s,
            CrispAteExecutionResult::Halt(CrispAteFault::UnrecognizedOpcode(w)),
        ),
    }
}

// ---------------------------------------------------------------------------
// The full cycle
// ---------------------------------------------------------------------------

/// The big-endian instruction word at the program counter.
pub open spec fn fetch_word(s: CrispAteView) -> u16 {
    ((s.memory[s.program_counter as int] as u16) << 8) | (s.memory[s.program_counter + 1] as u16)
}

/// One timer drain: each timer counts down when above zero, and the cycle in
/// which the sound timer stands at exactly one before draining signals a
/// tone.
pub open spec fn spec_tick(s: CrispAteView) -> (CrispAteView, bool) {
    (
        CrispAteView {
            delay: if s.delay > 0 { (s.delay - 1) as u8 } else { 0u8 },
            sound: if s.sound > 0 { (s.sound - 1) as u8 } else { 0u8 },
            ..s
        },
        s.sound == 1,
    )
}

/// One full cycle: fetch the word at the program counter, decode it, execute
/// it, then drain the timers.
pub open spec fn spec_cycle(s: CrispAteView, inputs: CrispAteInputs) -> (
    CrispAteView,
    CrispAteCycleOutcome,
) {
    let op = spec_decode(fetch_word(s));
    let (s1, result) = spec_step(s, op, inputs);
    let (s2, sound_tone) = spec_tick(s1);
    (s2, CrispAteCycleOutcome { result, sound_tone })
}

/// The bounds one cycle needs: the instruction word itself lies in memory
/// and the decoded instruction stays within `step_safe`.
pub open spec fn cycle_safe(s: CrispAteView) -> bool {
    &&& s.program_counter + 1 < 4096
    &&& step_safe(s, spec_decode(fetch_word(s)))
}

// ---------------------------------------------------------------------------
// Shape preservation
// ---------------------------------------------------------------------------

/// Applying one sprite row never changes the framebuffer's size.
pub proof fn lemma_draw_row_len(fb: Seq<bool>, b: u8, bx: int, by: int, row: int, ncols: int)
    requires
        fb.len() == 64 * 32,
    ensures
        draw_row(fb, b, bx, by, row, ncols).0.len() == fb.len(),
    decreases ncols,
{
    if ncols > 0 {
        lemma_draw_row_len(fb, b, bx, by, row, ncols - 1);
    }
}

/// Applying a whole sprite never changes the framebuffer's size.
pub proof fn lemma_draw_sprite_len(
    fb: Seq<bool>,
    memory: Seq<u8>,
    address: int,
    bx: int,
    by: int,
    nrows: int,
)
    requires
        fb.len() == 64 * 32,
    ensures
        draw_sprite(fb, memory, address, bx, by, nrows).0.len() == fb.len(),
    decreases nrows,
{
    if nrows > 0 {
        lemma_draw_sprite_len(fb, memory, address, bx, by, nrows - 1);
        lemma_draw_row_len(
            draw_sprite(fb, memory, address, bx, by, nrows - 1).0,
            memory[address + (nrows - 1)],
            bx,
            by,
            nrows - 1,
            8,
        );
    }
}

/// Storing a register range never changes the memory's size.
pub proof fn lemma_store_regs_len(memory: Seq<u8>, vregs: Seq<u8>, address: int, n: int)
    requires
        0 <= address,
        address + n <= memory.len(),
    ensures
        store_regs(memory, vregs, address, n).len() == memory.len(),
    decreases n,
{
    if n > 0 {
        lemma_store_regs_len(memory, vregs, address, n - 1);
    }
}

/// Loading a register range never changes the register file's size.
pub proof fn lemma_load_regs_len(vregs: Seq<u8>, memory: Seq<u8>, address: int, n: int)
    requires
        n <= vregs.len(),
    ensures
        load_regs(vregs, memory, address, n).len() == vregs.len(),
    decreases n,
{
    if n > 0 {
        lemma_load_regs_len(vregs, memory, address, n - 1);
    }
}

/// One step of a well-formed machine on a well-formed instruction leaves
/// the machine well-formed.
pub proof fn lemma_step_wf(s: CrispAteView, op: CrispsAteDecodedOpcodes, inputs: CrispAteInputs)
    requires
        s.wf(),
        opcode_wf(op),
        step_safe(s, op),
    ensures
        spec_step(s, op, inputs).0.wf(),
{
    match op {
        CrispsAteDecodedOpcodes::DrawSpriteAt(x, y, n) => {
            lemma_draw_sprite_len(
                s.screen,
                s.memory,
                s.address as int,
                (s.vregs[x as int] % 64) as int,
                (s.vregs[y as int] % 32) as int,
                n as int,
            );
        },
        CrispsAteDecodedOpcodes::StoreFromV0ToVXStartingFromI(x) => {
            lemma_store_regs_len(s.memory, s.vregs, s.address as int, x + 1);
        },
        CrispsAteDecodedOpcodes::FillFromV0ToVXStartingFromI(x) => {
            lemma_load_regs_len(s.vregs, s.memory, s.address as int, x + 1);
        },
        _ => {},
    }
}

} // verus!
