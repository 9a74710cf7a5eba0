//! The call stack, the signals the execution engine reports, and the
//! externally supplied per-cycle inputs.

use vstd::prelude::*;

verus! {

/// The subroutine call stack: sixteen 16-bit return-address slots and the
/// stack pointer. The pointer never exceeds the capacity; pushing past it or
/// popping an empty stack is a fatal fault, never silent.
#[derive(Debug)]
pub struct CrispAteRuntime {
    pub stack_pointer: usize,
    pub stack: Vec<u16>,
}

impl CrispAteRuntime {
    pub fn new() -> (runtime: CrispAteRuntime)
        ensures
            runtime.stack_pointer == 0,
            runtime.stack@ == seq![0u16; 16],
    {
        let mut stack: Vec<u16> = Vec::new();
        for i in 0..16usize
            invariant
                stack@ =~= seq![0u16; 16].take(i as int),
        {
            stack.push(0);
        }
        proof {
            assert(stack@ =~= seq![0u16; 16]);
        }
        CrispAteRuntime { stack_pointer: 0, stack }
    }
}

/// A fatal condition met while executing an instruction. Any of these ends
/// the run; the machine state is left exactly as it was before the faulting
/// instruction.
#[derive(Clone, Copy, Debug, PartialEq, Eq, Structural)]
pub enum CrispAteFault {
    /// A subroutine call was attempted with the stack already full.
    StackOverflow,
    /// A return was attempted with the stack empty.
    StackUnderflow,
    /// A glyph lookup was attempted for a value above 0xF.
    InvalidGlyphIndex,
    /// The word carried by an unrecognized instruction reached the engine.
    UnrecognizedOpcode(u16),
}

/// What one executed instruction reports back to the scheduler.
#[derive(Clone, Copy, Debug, PartialEq, Eq, Structural)]
pub enum CrispAteExecutionResult {
    /// The instruction completed and the machine can keep running.
    Continue,
    /// The machine is blocked on a key press that should be stored in the
    /// named register; the same instruction must be retried until a key
    /// arrives.
    AwaitingKeyInput(u8),
    /// A fatal condition; the run cannot continue.
    Halt(CrispAteFault),
}

/// A program image could not be loaded.
#[derive(Clone, Copy, Debug, PartialEq, Eq, Structural)]
pub enum CrispAteLoadError {
    /// The image is larger than the 3584 bytes of program memory.
    ProgramTooLarge,
}

/// The externally supplied state one cycle acts on: which of the sixteen
/// keys are held (bit k set means key k is down), the key reported pressed
/// since the last check, if any, and one random byte. The scheduler gathers
/// these from its input and randomness collaborators; handing them over as
/// plain values keeps instruction semantics deterministic and testable.
#[derive(Clone, Copy, Debug, PartialEq, Eq, Structural)]
pub struct CrispAteInputs {
    pub held_keys: u16,
    pub pressed_key: Option<u8>,
    pub random_byte: u8,
}

impl CrispAteInputs {
    /// A key code names one of the sixteen keys.
    pub open spec fn wf(&self) -> bool {
        self.pressed_key matches Some(k) ==> k < 16
    }

    /// Inputs for a cycle with no key activity.
    pub fn idle() -> (inputs: CrispAteInputs)
        ensures
            inputs.held_keys == 0,
            inputs.pressed_key is None,
            inputs.random_byte == 0,
            inputs.wf(),
    {
        CrispAteInputs { held_keys: 0, pressed_key: None, random_byte: 0 }
    }
}

/// What one full cycle reports: the execution signal of the instruction that
/// ran, and whether the sound timer passed through one, which asks the audio
/// collaborator for a tone.
#[derive(Clone, Copy, Debug, PartialEq, Eq, Structural)]
pub struct CrispAteCycleOutcome {
    pub result: CrispAteExecutionResult,
    pub sound_tone: bool,
}

} // verus!
