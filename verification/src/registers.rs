//! The register file, the timers, and the decoded form of an instruction
//! word.

use vstd::prelude::*;

verus! {

/// One decoded 16-bit instruction word. Register operands are indices into
/// the sixteen general-purpose registers (always below 16 when produced by
/// the decoder), immediates are the low byte of the word, and addresses are
/// its low 12 bits.
#[derive(Clone, Copy, Debug, PartialEq, Eq, Structural)]
pub enum CrispsAteDecodedOpcodes {
    /// Native-code call on the historical target; treated as a no-op here.
    Call(u16),
    ClearDisplay,
    Return,
    Jump(u16),
    CallSubRoutine(u16),
    SkipIfVXEquals(u8, u8),
    SkipIfVXNotEqual(u8, u8),
    SkipIfVXEqualsVY(u8, u8),
    SetVX(u8, u8),
    AddToVX(u8, u8),
    SetVXToVY(u8, u8),
    SetVXToVXorVY(u8, u8),
    SetVXToVXandVY(u8, u8),
    SetVXToVXxorVY(u8, u8),
    AddVYtoVX(u8, u8),
    SubtractVYFromVX(u8, u8),
    StoreLeastBitOfVXAndShiftVXRight(u8),
    SetVXToVYMinusVX(u8, u8),
    StoreMostBitOfVXAndShiftVXLeft(u8),
    SkipIfVXNotEqualVY(u8, u8),
    SetIAddress(u16),
    JumpToAddress(u16),
    SetVXToBitwiseANDWithSaltAndRandom(u8, u8),
    DrawSpriteAt(u8, u8, u8),
    SkipIfKeyAtVXIsPressed(u8),
    SkipIfKeyAtVXIsNotPressed(u8),
    SetVXToDelayValue(u8),
    GetKeyToVX(u8),
    SetDelayToVX(u8),
    SetSoundToVX(u8),
    AddVXToI(u8),
    SetIToLocationOfVXChar(u8),
    StoreBinaryCodedDecimalVX(u8),
    StoreFromV0ToVXStartingFromI(u8),
    FillFromV0ToVXStartingFromI(u8),
    /// A word that matches no known instruction form, carried in full.
    Unknown(u16),
}

/// The two 8-bit timers; each one counts down once per cycle while above
/// zero.
#[derive(Clone, Copy, Debug, PartialEq, Eq, Structural)]
pub struct CrispAteTimers {
    pub delay: u8,
    pub sound: u8,
}

impl CrispAteTimers {
    pub fn new() -> (timers: CrispAteTimers)
        ensures
            timers.delay == 0,
            timers.sound == 0,
    {
        CrispAteTimers { delay: 0, sound: 0 }
    }
}

/// The register file: sixteen general-purpose 8-bit registers, the 16-bit
/// address register, the 16-bit program counter, and the flag that tells the
/// front end the framebuffer changed.
#[derive(Clone, Copy, Debug, PartialEq, Eq, Structural)]
pub struct CrispAteRegisters {
    pub v_0: u8,
    pub v_1: u8,
    pub v_2: u8,
    pub v_3: u8,
    pub v_4: u8,
    pub v_5: u8,
    pub v_6: u8,
    pub v_7: u8,
    pub v_8: u8,
    pub v_9: u8,
    pub v_a: u8,
    pub v_b: u8,
    pub v_c: u8,
    pub v_d: u8,
    pub v_e: u8,
    pub v_f: u8,
    pub address: u16,
    pub program_counter: u16,
    pub draw_flag: bool,
}

impl CrispAteRegisters {
    /// The sixteen general-purpose registers as one sequence, indexed by
    /// register number.
    pub open spec fn vregs(&self) -> Seq<u8> {
        seq![
            self.v_0,
            self.v_1,
            self.v_2,
            self.v_3,
            self.v_4,
            self.v_5,
            self.v_6,
            self.v_7,
            self.v_8,
            self.v_9,
            self.v_a,
            self.v_b,
            self.v_c,
            self.v_d,
            self.v_e,
            self.v_f,
        ]
    }

    pub fn new() -> (registers: CrispAteRegisters)
        ensures
            registers.vregs() == seq![0u8; 16],
            registers.address == 0,
            registers.program_counter == 0,
            !registers.draw_flag,
    {
        let registers = CrispAteRegisters {
            v_0: 0,
            v_1: 0,
            v_2: 0,
            v_3: 0,
            v_4: 0,
            v_5: 0,
            v_6: 0,
            v_7: 0,
            v_8: 0,
            v_9: 0,
            v_a: 0,
            v_b: 0,
            v_c: 0,
            v_d: 0,
            v_e: 0,
            v_f: 0,
            address: 0,
            program_counter: 0,
            draw_flag: false,
        };
        proof {
            assert(registers.vregs() =~= seq![0u8; 16]);
        }
        registers
    }
}

} // verus!
