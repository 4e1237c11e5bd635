//! An emulator core for a small 32-bit RISC instruction set: data-processing
//! (ALU) instructions, multiply, single-register memory transfer, and branch,
//! with condition-code gating and a memory-mapped GPIO region.
//!
//! The machine loads a flat binary image at address 0 and executes words from
//! memory until an all-zero sentinel word is fetched. Every state change of
//! the machine is specified exactly: each executor's contract equates the new
//! machine state with a specification-level function of the old state and the
//! instruction word.

pub mod bits;
pub mod outcome;
pub mod state;
pub mod cond;
pub mod shifter;
pub mod dataproc;
pub mod multiply;
pub mod branch;
pub mod transfer;
pub mod step;
pub mod laws;
