//! The operand-2 resolver's register mode: a register value shifted by an
//! immediate 5-bit amount or by the low byte of another register, with one of
//! four shift types. A shift amount of zero passes the value through and
//! leaves the carry flag alone; the carry-out of a nonzero shift is the last
//! bit shifted out.

use vstd::prelude::*;
use crate::bits::bit;
use crate::bits::bits;
use crate::bits::get_bit;
use crate::bits::get_bits;
use crate::bits::lemma_bits_bound;
use crate::outcome::FatalError;
use crate::state::PC;
use crate::state::State;
use crate::state::CPU;

verus! {

/// The four shift types, selected by bits 5-6 of the instruction.
#[derive(Clone, Copy, Debug, PartialEq, Eq, Structural)]
pub enum ShiftType {
    /// Logical left.
    Lsl,
    /// Logical right.
    Lsr,
    /// Arithmetic right: sign-extends from bit 31.
    Asr,
    /// Rotate right.
    Ror,
}

/// The shift type selected by bits 5-6 of the instruction.
pub open spec fn spec_shift_type(instruction: u32) -> ShiftType {
    let t = bits(instruction, 5, 2);
    if t == 0 {
        ShiftType::Lsl
    } else if t == 1 {
        ShiftType::Lsr
    } else if t == 2 {
        ShiftType::Asr
    } else {
        ShiftType::Ror
    }
}

/// `v` shifted left by `n`, zero once every bit is shifted out.
pub open spec fn spec_lsl(v: u32, n: u32) -> u32 {
    if n >= 32 {
        0u32
    } else {
        v << n
    }
}

/// `v` shifted right by `n`, zero once every bit is shifted out.
pub open spec fn spec_lsr(v: u32, n: u32) -> u32 {
    if n >= 32 {
        0u32
    } else {
        v >> n
    }
}

/// `v` shifted right by `n` with the sign bit copied into the vacated bits.
pub open spec fn spec_asr(v: u32, n: u32) -> u32 {
    if !bit(v, 31) {
        spec_lsr(v, n)
    } else if n >= 32 {
        0xFFFF_FFFFu32
    } else {
        (v >> n) | (0xFFFF_FFFFu32 << ((32 - n) as u32))
    }
}

/// `v` rotated right by `n` places (circularly, so only `n % 32` matters).
pub open spec fn spec_ror(v: u32, n: u32) -> u32 {
    let m = (n % 32) as u32;
    if m == 0 {
        v
    } else {
        (v >> m) | (v << ((32 - m) as u32))
    }
}

/// The carry-out of a nonzero shift: the last bit shifted out of `v`.
pub open spec fn spec_shift_carry(ty: ShiftType, v: u32, n: u32) -> bool
    recommends
        n >= 1,
{
    match ty {
        ShiftType::Lsl => if n > 32 {
            false
        } else {
            bit(v, (32 - n) as u32)
        },
        ShiftType::Lsr => if n > 32 {
            false
        } else if n == 32 {
            bit(v, 31)
        } else {
            bit(v, (n - 1) as u32)
        },
        ShiftType::Asr => if n >= 32 {
            bit(v, 31)
        } else {
            bit(v, (n - 1) as u32)
        },
        ShiftType::Ror => if n % 32 == 0 {
            bit(v, 31)
        } else {
            bit(v, ((n % 32) - 1) as u32)
        },
    }
}

/// `v` shifted by `n` with shift type `ty`: the shifted value, and the
/// carry-out. Amount zero passes the value through and reports no carry-out
/// (`None`), which callers must read as "leave the carry flag unchanged".
pub open spec fn spec_shifted(ty: ShiftType, v: u32, n: u32) -> (u32, Option<bool>) {
    if n == 0 {
        (v, None)
    } else {
        let value = match ty {
            ShiftType::Lsl => spec_lsl(v, n),
            ShiftType::Lsr => spec_lsr(v, n),
            ShiftType::Asr => spec_asr(v, n),
            ShiftType::Ror => spec_ror(v, n),
        };
        (value, Some(spec_shift_carry(ty, v, n)))
    }
}

/// The register-mode operand-2 of `instruction` in state `s`: the shifted
/// value of register Rm (bits 0-3) and the shifter's carry-out. The shift
/// amount is an immediate 5-bit field (bit 4 clear) or the low byte of the
/// register named by bits 8-11 (bit 4 set, bit 7 clear). Using the program
/// counter as Rm, or shift-mode bits that say neither, is a fatal error.
pub open spec fn spec_shift_operation(s: State, instruction: u32) -> Result<
    (u32, Option<bool>),
    FatalError,
>
    recommends
        s.wf(),
{
    let rm = bits(instruction, 0, 4);
    if rm == PC {
        Err(FatalError::ShiftUsesPc { instruction })
    } else if bit(instruction, 4) && bit(instruction, 7) {
        Err(FatalError::MalformedShift { instruction })
    } else {
        let amount = if !bit(instruction, 4) {
            bits(instruction, 7, 5)
        } else {
            (s.regs[bits(instruction, 8, 4) as int] % 0x100) as u32
        };
        Ok(spec_shifted(spec_shift_type(instruction), s.regs[rm as int], amount))
    }
}

/// The shift type selected by bits 5-6 of the instruction.
pub fn shift_type_of(instruction: &u32) -> (ty: ShiftType)
    ensures
        ty == spec_shift_type(*instruction),
{
    let t = get_bits(instruction, 5, 2);
    if t == 0 {
        ShiftType::Lsl
    } else if t == 1 {
        ShiftType::Lsr
    } else if t == 2 {
        ShiftType::Asr
    } else {
        ShiftType::Ror
    }
}

/// Shift `v` by `n` places with shift type `ty`, returning the value and the
/// carry-out (`None` when the amount is zero: the carry flag is not touched).
pub fn shifted(ty: ShiftType, v: u32, n: u32) -> (r: (u32, Option<bool>))
    ensures
        r == spec_shifted(ty, v, n),
{
    if n == 0 {
        return (v, None);
    }
    match ty {
        ShiftType::Lsl => {
            if n > 32 {
                (0, Some(false))
            } else if n == 32 {
                (0, Some(get_bit(&v, 0)))
            } else {
                (v << n, Some(get_bit(&v, 32 - n)))
            }
        },
        ShiftType::Lsr => {
            if n > 32 {
                (0, Some(false))
            } else if n == 32 {
                (0, Some(get_bit(&v, 31)))
            } else {
                (v >> n, Some(get_bit(&v, n - 1)))
            }
        },
        ShiftType::Asr => {
            let sign = get_bit(&v, 31);
            if n >= 32 {
                if sign {
                    (0xFFFF_FFFFu32, Some(true))
                } else {
                    (0, Some(false))
                }
            } else {
                let low = v >> n;
                if sign {
                    (low | (0xFFFF_FFFFu32 << (32 - n)), Some(get_bit(&v, n - 1)))
                } else {
                    (low, Some(get_bit(&v, n - 1)))
                }
            }
        },
        ShiftType::Ror => {
            let m = n % 32;
            if m == 0 {
                (v, Some(get_bit(&v, 31)))
            } else {
                ((v >> m) | (v << (32 - m)), Some(get_bit(&v, m - 1)))
            }
        },
    }
}

impl CPU {
    /// Resolve the register-mode operand-2 of an instruction: the shifted
    /// value of Rm and the shifter's carry-out (`None` means the carry flag
    /// is left unchanged).
    pub fn shift_operation(&self, instruction: &u32) -> (r: Result<(u32, Option<bool>), FatalError>)
        requires
            self.wf(),
        ensures
            r == spec_shift_operation(self@, *instruction),
    {
        let instr: u32 = *instruction;
        proof {
            lemma_bits_bound(instr, 0, 4);
            lemma_bits_bound(instr, 8, 4);
        }
        let rm = get_bits(&instr, 0, 4);
        if rm == PC {
            return Err(FatalError::ShiftUsesPc { instruction: instr });
        }
        let rm_value = self.get_register(rm);
        let amount: u32;
        if !get_bit(&instr, 4) {
            amount = get_bits(&instr, 7, 5);
        } else if !get_bit(&instr, 7) {
            amount = self.get_register(get_bits(&instr, 8, 4)) % 0x100;
        } else {
            return Err(FatalError::MalformedShift { instruction: instr });
        }
        Ok(shifted(shift_type_of(&instr), rm_value, amount))
    }
}

} // verus!
