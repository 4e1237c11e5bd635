//! The multiply executor: integer multiply-accumulate with register-use
//! validation. Only N and Z are updated when the set-flags bit is on; C and V
//! are never touched.

use vstd::prelude::*;
use crate::bits::bit;
use crate::bits::bits;
use crate::bits::get_bit;
use crate::bits::get_bits;
use crate::bits::lemma_bits_bound;
use crate::outcome::FatalError;
use crate::state::PC;
use crate::state::State;
use crate::state::CPU;
use vstd::wrapping::u32_specs;

verus! {

/// One multiply instruction on state `s`: `Rd = Rm * Rs` plus `Rn` when the
/// accumulate bit (bit 21) is on, wrapping. Rd equal to Rm, or the program
/// counter in any operand position, is a fatal error and nothing changes.
pub open spec fn spec_multiply(s: State, instruction: u32) -> (State, Result<(), FatalError>)
    recommends
        s.wf(),
{
    let rd = bits(instruction, 16, 4);
    let rm = bits(instruction, 0, 4);
    let rs = bits(instruction, 8, 4);
    let rn = bits(instruction, 12, 4);
    if rd == rm || rd == PC || rm == PC || rs == PC || rn == PC {
        (s, Err(FatalError::MultiplyInvalidRegisters { instruction }))
    } else {
        let acc: u32 = if bit(instruction, 21) {
            s.regs[rn as int]
        } else {
            0u32
        };
        let result = u32_specs::wrapping_add(
            u32_specs::wrapping_mul(s.regs[rm as int], s.regs[rs as int]),
            acc,
        );
        let s1 = s.with_reg(rd, result);
        let s2 = if bit(instruction, 20) {
            State { n: bit(result, 31), z: result == 0, ..s1 }
        } else {
            s1
        };
        (s2, Ok(()))
    }
}

impl CPU {
    /// Execute one multiply instruction: validate the register fields, write
    /// the wrapping multiply-accumulate result to Rd, and update N and Z
    /// (never C or V) when the set-flags bit is on.
    pub fn multiple_instruction(&mut self, instruction: &u32) -> (r: Result<(), FatalError>)
        requires
            old(self).wf(),
        ensures
            final(self).wf(),
            ({
                let (s2, res) = spec_multiply(old(self)@, *instruction);
                final(self)@ == s2 && r == res
            }),
    {
        let instr: u32 = *instruction;
        proof {
            lemma_bits_bound(instr, 16, 4);
            lemma_bits_bound(instr, 0, 4);
            lemma_bits_bound(instr, 8, 4);
            lemma_bits_bound(instr, 12, 4);
        }
        let rd_reg = get_bits(&instr, 16, 4);
        let rm_reg = get_bits(&instr, 0, 4);
        let rs_reg = get_bits(&instr, 8, 4);
        let rn_reg = get_bits(&instr, 12, 4);

        if rd_reg == rm_reg || rd_reg == PC || rm_reg == PC || rs_reg == PC || rn_reg == PC {
            return Err(FatalError::MultiplyInvalidRegisters { instruction: instr });
        }
        let acc: u32 = if get_bit(&instr, 21) {
            self.get_register(rn_reg)
        } else {
            0u32
        };
        let result = self.get_register(rm_reg).wrapping_mul(self.get_register(rs_reg)).wrapping_add(
            acc,
        );
        self.set_register(rd_reg, result);
        if get_bit(&instr, 20) {
            self.cpsr.n = get_bit(&result, 31);
            self.cpsr.z = result == 0;
        }
        Ok(())
    }
}

} // verus!
