//! The data-processing executor: eight ALU operations with compare-style
//! variants, operand-2 resolution (immediate-rotate or shifted register), and
//! CPSR flag update per opcode class.

use vstd::prelude::*;
use crate::bits::bit;
use crate::bits::bits;
use crate::bits::get_bit;
use crate::bits::get_bits;
use crate::bits::lemma_bits_bound;
use crate::outcome::FatalError;
use crate::shifter::spec_ror;
use crate::shifter::spec_shift_operation;
use crate::state::State;
use crate::state::CPU;
use vstd::wrapping::u32_specs;

verus! {

/// The supported data-processing opcodes (4-bit field, bits 21-24). Any other
/// code value is a fatal error.
#[derive(Clone, Copy, Debug, PartialEq, Eq, Structural)]
pub enum Opcode {
    /// Code 0: bitwise and.
    And,
    /// Code 1: bitwise exclusive or.
    Eor,
    /// Code 2: Rn minus operand-2 (wraps).
    Sub,
    /// Code 3: operand-2 minus Rn (wraps).
    Rsb,
    /// Code 4: Rn plus operand-2 (wraps).
    Add,
    /// Code 8: like `And` but only the flags are written.
    Tst,
    /// Code 9: like `Eor` but only the flags are written.
    Teq,
    /// Code 10: like `Sub` but only the flags are written.
    Cmp,
    /// Code 12: bitwise inclusive or.
    Orr,
    /// Code 13: operand-2 itself; Rn is ignored.
    Mov,
}

/// The opcode named by a 4-bit code, or `None` for an unsupported code.
pub open spec fn spec_opcode_of(code: u32) -> Option<Opcode> {
    if code == 0 {
        Some(Opcode::And)
    } else if code == 1 {
        Some(Opcode::Eor)
    } else if code == 2 {
        Some(Opcode::Sub)
    } else if code == 3 {
        Some(Opcode::Rsb)
    } else if code == 4 {
        Some(Opcode::Add)
    } else if code == 8 {
        Some(Opcode::Tst)
    } else if code == 9 {
        Some(Opcode::Teq)
    } else if code == 10 {
        Some(Opcode::Cmp)
    } else if code == 12 {
        Some(Opcode::Orr)
    } else if code == 13 {
        Some(Opcode::Mov)
    } else {
        None
    }
}

/// Whether the opcode writes its result to Rd (the compare-style opcodes
/// compute flags only).
pub open spec fn spec_writes_result(op: Opcode) -> bool {
    !(op is Tst || op is Teq || op is Cmp)
}

/// Whether the opcode is of the logical class, whose carry comes from the
/// shifter rather than from the arithmetic.
pub open spec fn spec_logical_class(op: Opcode) -> bool {
    op is And || op is Eor || op is Orr || op is Teq || op is Tst || op is Mov
}

/// The immediate-mode operand-2: an 8-bit value rotated right by twice the
/// 4-bit rotate field. Rotate zero reports no carry-out (the carry flag is
/// not touched); a nonzero rotate carries out the bit rotated into bit 31,
/// which is bit (rotate - 1) of the original value.
pub open spec fn spec_imm_operand2(instruction: u32) -> (u32, Option<bool>) {
    let rotate = (bits(instruction, 8, 4) * 2) as u32;
    let imm = bits(instruction, 0, 8);
    if rotate == 0 {
        (imm, None)
    } else {
        (spec_ror(imm, rotate), Some(bit(imm, (rotate - 1) as u32)))
    }
}

/// The ALU result of an opcode on Rn and operand-2. Arithmetic wraps.
pub open spec fn spec_alu_result(op: Opcode, rn: u32, op2: u32) -> u32 {
    match op {
        Opcode::And | Opcode::Tst => rn & op2,
        Opcode::Eor | Opcode::Teq => rn ^ op2,
        Opcode::Sub | Opcode::Cmp => u32_specs::wrapping_sub(rn, op2),
        Opcode::Rsb => u32_specs::wrapping_sub(op2, rn),
        Opcode::Add => u32_specs::wrapping_add(rn, op2),
        Opcode::Orr => rn | op2,
        Opcode::Mov => op2,
    }
}

/// The new carry flag when an instruction with the set-flags bit runs: the
/// logical class takes the shifter's carry-out (or keeps the old carry when
/// the shifter did not produce one); `Add`/`Rsb` detect unsigned overflow by
/// sign-bit analysis; the `Sub`/`Cmp` class reports "no borrow".
pub open spec fn spec_alu_carry(
    op: Opcode,
    rn: u32,
    op2: u32,
    result: u32,
    shifter_carry: Option<bool>,
    old_c: bool,
) -> bool {
    match op {
        Opcode::And | Opcode::Eor | Opcode::Orr | Opcode::Teq | Opcode::Tst | Opcode::Mov => match shifter_carry {
            Some(b) => b,
            None => old_c,
        },
        Opcode::Add | Opcode::Rsb => (bit(rn, 31) || bit(op2, 31)) && !bit(result, 31),
        Opcode::Sub | Opcode::Cmp => op2 <= rn,
    }
}

/// One data-processing instruction on state `s`: the state after it, and
/// whether a fatal condition stopped it (then the state is unchanged). When
/// the set-flags bit (bit 20) is clear no flag moves; when it is set, N and Z
/// come from the result, C from `spec_alu_carry`, and V is never touched.
pub open spec fn spec_data_proc(s: State, instruction: u32) -> (State, Result<(), FatalError>)
    recommends
        s.wf(),
{
    let rd = bits(instruction, 12, 4);
    let rn_val = s.regs[bits(instruction, 16, 4) as int];
    let op2_res: Result<(u32, Option<bool>), FatalError> = if bit(instruction, 25) {
        Ok(spec_imm_operand2(instruction))
    } else {
        spec_shift_operation(s, instruction)
    };
    match op2_res {
        Err(e) => (s, Err(e)),
        Ok(op2_pair) => match spec_opcode_of(bits(instruction, 21, 4)) {
            None => (s, Err(FatalError::UnknownOpcode { instruction })),
            Some(op) => {
                let result = spec_alu_result(op, rn_val, op2_pair.0);
                let s1 = if spec_writes_result(op) {
                    s.with_reg(rd, result)
                } else {
                    s
                };
                let s2 = if bit(instruction, 20) {
                    State {
                        n: bit(result, 31),
                        z: result == 0,
                        c: spec_alu_carry(op, rn_val, op2_pair.0, result, op2_pair.1, s.c),
                        ..s1
                    }
                } else {
                    s1
                };
                (s2, Ok(()))
            },
        },
    }
}

/// The opcode named by a 4-bit code, or `None` for an unsupported code.
pub fn opcode_of(code: u32) -> (r: Option<Opcode>)
    ensures
        r == spec_opcode_of(code),
{
    if code == 0 {
        Some(Opcode::And)
    } else if code == 1 {
        Some(Opcode::Eor)
    } else if code == 2 {
        Some(Opcode::Sub)
    } else if code == 3 {
        Some(Opcode::Rsb)
    } else if code == 4 {
        Some(Opcode::Add)
    } else if code == 8 {
        Some(Opcode::Tst)
    } else if code == 9 {
        Some(Opcode::Teq)
    } else if code == 10 {
        Some(Opcode::Cmp)
    } else if code == 12 {
        Some(Opcode::Orr)
    } else if code == 13 {
        Some(Opcode::Mov)
    } else {
        None
    }
}

/// Resolve the immediate-mode operand-2 of an instruction.
pub fn imm_operand2(instruction: &u32) -> (r: (u32, Option<bool>))
    ensures
        r == spec_imm_operand2(*instruction),
{
    let instr: u32 = *instruction;
    proof {
        lemma_bits_bound(instr, 8, 4);
    }
    let rotate = get_bits(&instr, 8, 4) * 2;
    let imm = get_bits(&instr, 0, 8);
    if rotate == 0 {
        (imm, None)
    } else {
        proof {
            assert(rotate % 32 == rotate) by (bit_vector)
                requires
                    rotate < 32,
            ;
        }
        ((imm >> rotate) | (imm << (32 - rotate)), Some(get_bit(&imm, rotate - 1)))
    }
}

impl CPU {
    /// Execute one data-processing instruction: resolve operand-2, perform
    /// the ALU operation, write Rd unless the opcode is compare-style, and
    /// update N, Z and C (never V) when the set-flags bit is on.
    pub fn process_data_instruction(&mut self, instruction: &u32) -> (r: Result<(), FatalError>)
        requires
            old(self).wf(),
        ensures
            final(self).wf(),
            ({
                let (s2, res) = spec_data_proc(old(self)@, *instruction);
                final(self)@ == s2 && r == res
            }),
    {
        let instr: u32 = *instruction;
        proof {
            lemma_bits_bound(instr, 12, 4);
            lemma_bits_bound(instr, 16, 4);
        }
        let rd_reg = get_bits(&instr, 12, 4);
        let rn_val = self.get_register(get_bits(&instr, 16, 4));
        let s_flag = get_bit(&instr, 20);

        let op2_pair: (u32, Option<bool>);
        if get_bit(&instr, 25) {
            op2_pair = imm_operand2(&instr);
        } else {
            match self.shift_operation(&instr) {
                Ok(p) => {
                    op2_pair = p;
                },
                Err(e) => {
                    return Err(e);
                },
            }
        }
        let operand2 = op2_pair.0;
        let shifter_carry = op2_pair.1;

        let op: Opcode;
        match opcode_of(get_bits(&instr, 21, 4)) {
            Some(o) => {
                op = o;
            },
            None => {
                return Err(FatalError::UnknownOpcode { instruction: instr });
            },
        }

        let result: u32 = match op {
            Opcode::And | Opcode::Tst => rn_val & operand2,
            Opcode::Eor | Opcode::Teq => rn_val ^ operand2,
            Opcode::Sub | Opcode::Cmp => rn_val.wrapping_sub(operand2),
            Opcode::Rsb => operand2.wrapping_sub(rn_val),
            Opcode::Add => rn_val.wrapping_add(operand2),
            Opcode::Orr => rn_val | operand2,
            Opcode::Mov => operand2,
        };

        let writes = match op {
            Opcode::Tst | Opcode::Teq | Opcode::Cmp => false,
            _ => true,
        };
        if writes {
            self.set_register(rd_reg, result);
        }

        if s_flag {
            self.cpsr.c = match op {
                Opcode::And | Opcode::Eor | Opcode::Orr | Opcode::Teq | Opcode::Tst
                | Opcode::Mov => match shifter_carry {
                    Some(b) => b,
                    None => self.cpsr.c,
                },
                Opcode::Add | Opcode::Rsb => (get_bit(&rn_val, 31) || get_bit(&operand2, 31))
                    && !get_bit(&result, 31),
                _ => operand2 <= rn_val,
            };
            self.cpsr.z = result == 0;
            self.cpsr.n = get_bit(&result, 31);
        }
        Ok(())
    }
}

} // verus!
