//! Error and event values produced by the executors.
//!
//! Fatal conditions end a run; they carry the kind of fault and the offending
//! word. Memory-mapped I/O produces events that the caller may log; an
//! out-of-bounds data access is such an event, never a fault: the instruction
//! has no effect and execution continues.

use vstd::prelude::*;

verus! {

/// A condition that aborts the run. Each variant carries the instruction word
/// (or, for a failed fetch, the address) that caused it.
#[derive(Clone, Copy, Debug, PartialEq, Eq, Structural)]
pub enum FatalError {
    /// The word matches none of the four known instruction shapes.
    InvalidInstruction { instruction: u32 },
    /// A shift names the program counter as the register to be shifted.
    ShiftUsesPc { instruction: u32 },
    /// The shift-mode bits say neither "by immediate" nor "by register".
    MalformedShift { instruction: u32 },
    /// A single data transfer names the program counter as its Rd register.
    TransferPcDestination { instruction: u32 },
    /// A pre-indexed transfer with a register-specified offset names the same
    /// register as offset and as Rd.
    TransferAliasedOffset { instruction: u32 },
    /// A multiply names the same register as Rd and Rm, or names the program
    /// counter as any operand.
    MultiplyInvalidRegisters { instruction: u32 },
    /// A data-processing opcode outside the supported operations.
    UnknownOpcode { instruction: u32 },
    /// The next instruction word would be fetched from outside memory.
    FetchOutOfBounds { address: u32 },
    /// The dispatch loop ran for 2^64 - 1 cycles without halting and gave up;
    /// callers that need an endless run drive `CPU::step` themselves.
    CycleLimit,
}

/// An observable side effect of a single data transfer touching the
/// memory-mapped GPIO region, or of an out-of-bounds data access.
#[derive(Clone, Copy, Debug, PartialEq, Eq, Structural)]
pub enum MmioEvent {
    /// A pin-function-select register was accessed; `region` is the first of
    /// the ten pins it controls.
    PinAccess { region: u32 },
    /// A store to the pin-set register.
    PinOn,
    /// A store to the pin-clear register.
    PinOff,
    /// A data access outside memory and outside the GPIO region; the
    /// instruction had no effect.
    OutOfBounds { address: u32 },
}

/// What one fetch-decode-execute cycle did.
#[derive(Clone, Copy, Debug)]
pub enum StepOutcome {
    /// The fetched word was the all-zero sentinel; the machine halted.
    Halted,
    /// The condition field did not hold, so the word was skipped.
    Skipped,
    /// An instruction ran, perhaps with an observable memory-mapped event.
    Executed(Option<MmioEvent>),
}

/// A reason the binary image could not be placed in memory.
#[derive(Clone, Copy, Debug, PartialEq, Eq, Structural)]
pub enum LoadError {
    /// The image does not fit below the memory size.
    ImageTooLarge,
}

} // verus!
