//! The branch executor: a signed 24-bit word offset added to the program
//! counter, with a one-word subtraction that compensates the dispatch loop's
//! two-stage prefetch.

use vstd::prelude::*;
use crate::bits::bit;
use crate::bits::bits;
use crate::bits::get_bit;
use crate::bits::get_bits;
use crate::state::PC;
use crate::state::State;
use crate::state::CPU;
use vstd::wrapping::u32_specs;

verus! {

/// One branch instruction on state `s`. The low 24 bits are a signed word
/// offset (bit 23 is the sign); the program counter becomes
/// `PC + 4 * (offset - 1)` modulo `2^32`. Subtracting one word compensates
/// the prefetch model: the dispatch loop has already advanced the program
/// counter past the branch when the target is computed. Here the subtraction
/// is folded into the bias: for a clear sign bit the low bits minus 1, for a
/// set sign bit the low bits minus `0x800001` (two's-complement
/// sign-extension of the 24-bit field, minus 1), each times 4, wrapping.
pub open spec fn spec_branch(s: State, instruction: u32) -> State
    recommends
        s.wf(),
{
    let raw = bits(instruction, 0, 23);
    let bias: u32 = if bit(instruction, 23) {
        0x800001u32
    } else {
        1u32
    };
    let delta = u32_specs::wrapping_mul(u32_specs::wrapping_sub(raw, bias), 4);
    s.with_reg(PC, u32_specs::wrapping_add(s.regs[PC as int], delta))
}

impl CPU {
    /// Execute a branch: move the program counter by the instruction's signed
    /// word offset, compensating for the pipeline prefetch.
    pub fn branch_instruction(&mut self, instruction: &u32)
        requires
            old(self).wf(),
        ensures
            final(self).wf(),
            final(self)@ == spec_branch(old(self)@, *instruction),
    {
        let instr: u32 = *instruction;
        let raw = get_bits(&instr, 0, 23);
        let bias: u32 = if get_bit(&instr, 23) {
            0x800001u32
        } else {
            1u32
        };
        let delta = raw.wrapping_sub(bias).wrapping_mul(4);
        let pc_val = self.get_register(PC);
        self.set_register(PC, pc_val.wrapping_add(delta));
    }
}

} // verus!
