//! General laws of the machine, stated over the specification functions that
//! the executors' contracts use and proved for every input.

use vstd::prelude::*;
use crate::bits::bit;
use crate::bits::bits;
use crate::bits::lemma_bits_bound;
use crate::cond::spec_condition_holds;
use crate::cond::spec_condition_of;
use crate::dataproc::spec_data_proc;
use crate::dataproc::spec_imm_operand2;
use crate::multiply::spec_multiply;
use crate::outcome::FatalError;
use crate::outcome::MmioEvent;
use crate::shifter::spec_asr;
use crate::shifter::spec_ror;
use crate::shifter::spec_shift_operation;
use crate::state::MEMSIZE;
use crate::state::PC;
use crate::state::State;
use crate::transfer::spec_access;
use vstd::wrapping::u32_specs;

verus! {

/// A shift amount of zero — an immediate field of zero, or a shift register
/// whose low byte is zero — passes the register value through unchanged and
/// produces no carry-out, whatever the shift type: the carry flag is left as
/// it was, whether set or clear.
pub proof fn lemma_zero_shift_amount(s: State, instruction: u32)
    requires
        s.wf(),
        bits(instruction, 0, 4) != PC,
        !(bit(instruction, 4) && bit(instruction, 7)),
        (if !bit(instruction, 4) {
            bits(instruction, 7, 5)
        } else {
            (s.regs[bits(instruction, 8, 4) as int] % 0x100) as u32
        }) == 0,
    ensures
        spec_shift_operation(s, instruction) == Ok::<(u32, Option<bool>), FatalError>(
            (s.regs[bits(instruction, 0, 4) as int], None),
        ),
{
}

/// When the shifter reports no carry-out and the opcode is of the logical
/// class, a data-processing instruction leaves the carry flag unchanged even
/// with the set-flags bit on.
pub proof fn lemma_silent_shifter_keeps_carry(s: State, instruction: u32)
    requires
        s.wf(),
        ({
            let op2 = if bit(instruction, 25) {
                Ok(spec_imm_operand2(instruction))
            } else {
                spec_shift_operation(s, instruction)
            };
            op2 matches Ok(p) && p.1 is None
        }),
        crate::dataproc::spec_opcode_of(bits(instruction, 21, 4)) matches Some(
            op,
        ) && crate::dataproc::spec_logical_class(op),
    ensures
        spec_data_proc(s, instruction).1 is Ok,
        spec_data_proc(s, instruction).0.c == s.c,
{
}

/// An immediate operand-2 with rotate field zero is the 8-bit value itself
/// with no carry-out; a nonzero rotate carries out exactly the bit that was
/// rotated into position 31 of the result.
pub proof fn lemma_immediate_rotate_carry(instruction: u32)
    ensures
        bits(instruction, 8, 4) == 0 ==> spec_imm_operand2(instruction) == (
            bits(instruction, 0, 8),
            None::<bool>,
        ),
        bits(instruction, 8, 4) != 0 ==> spec_imm_operand2(instruction).1 == Some(
            bit(spec_ror(bits(instruction, 0, 8), (bits(instruction, 8, 4) * 2) as u32), 31),
        ),
{
    lemma_bits_bound(instruction, 8, 4);
    let rotate: u32 = (bits(instruction, 8, 4) * 2) as u32;
    let imm: u32 = bits(instruction, 0, 8);
    if bits(instruction, 8, 4) != 0 {
        assert(rotate % 32 == rotate && ((bit(spec_ror(imm, rotate), 31) == bit(
            imm,
            (rotate - 1) as u32,
        )))) by (bit_vector)
            requires
                2 <= rotate < 32,
        ;
    }
}

/// Arithmetic right shift sign-extends: every vacated position receives the
/// sign bit, and the remaining bits move right by the shift amount.
pub proof fn lemma_asr_sign_extends(v: u32, n: u32, i: u32)
    requires
        1 <= n < 32,
        i < 32,
    ensures
        i >= 32 - n ==> bit(spec_asr(v, n), i) == bit(v, 31),
        i < 32 - n ==> bit(spec_asr(v, n), i) == bit(v, (i + n) as u32),
{
    assert((i >= 32 - n ==> bit(spec_asr(v, n), i) == bit(v, 31)) && (i < 32 - n ==> bit(
        spec_asr(v, n),
        i,
    ) == bit(v, (i + n) as u32))) by (bit_vector)
        requires
            1 <= n < 32,
            i < 32,
    ;
}

/// For amounts 1 to 32, a rotate is circular — bit `i` of the result is bit
/// `(i + n) mod 32` of the original value — and its carry-out is bit
/// `n - 1` of the original value (bit 31 for a full rotate).
pub proof fn lemma_ror_is_circular(v: u32, n: u32, i: u32)
    requires
        1 <= n <= 32,
        i < 32,
    ensures
        bit(spec_ror(v, n), i) == bit(v, ((i + n) % 32) as u32),
        n < 32 ==> crate::shifter::spec_shift_carry(crate::shifter::ShiftType::Ror, v, n) == bit(
            v,
            (n - 1) as u32,
        ),
        n == 32 ==> crate::shifter::spec_shift_carry(crate::shifter::ShiftType::Ror, v, n) == bit(
            v,
            31,
        ),
{
    if n < 32 {
        assert(n % 32 == n) by (bit_vector)
            requires
                1 <= n < 32,
        ;
    }
    let m: u32 = (n % 32) as u32;
    assert(bit(
        if m == 0 {
            v
        } else {
            (v >> m) | (v << ((32 - m) as u32))
        },
        i,
    ) == bit(v, ((i + n) % 32) as u32)) by (bit_vector)
        requires
            m == n % 32 && 1 <= n <= 32 && i < 32,
    ;
}

/// Every condition-code value outside the seven supported ones evaluates to
/// false for every flag combination: the instruction is skipped, not an error.
pub proof fn lemma_unrecognized_condition_skips(code: u32, n: bool, z: bool, v: bool)
    requires
        code != 0 && code != 1 && code != 10 && code != 11 && code != 12 && code != 13 && code
            != 14,
    ensures
        !spec_condition_holds(spec_condition_of(code), n, z, v),
{
}

/// No data-processing instruction ever touches the overflow flag V, with or
/// without the set-flags bit.
pub proof fn lemma_data_proc_preserves_v(s: State, instruction: u32)
    ensures
        spec_data_proc(s, instruction).0.v == s.v,
{
}

/// A multiply never touches the carry or overflow flags, with or without the
/// set-flags bit.
pub proof fn lemma_multiply_preserves_c_v(s: State, instruction: u32)
    ensures
        spec_multiply(s, instruction).0.c == s.c,
        spec_multiply(s, instruction).0.v == s.v,
{
}

/// A store to the pin-set address produces the pin-on event and changes
/// neither a register nor a byte of memory.
pub proof fn lemma_pin_on_store_changes_nothing(s: State, rd_reg: u32)
    ensures
        spec_access(s, rd_reg, 0x2020001C, false) == (
            s,
            Ok::<Option<MmioEvent>, FatalError>(Some(MmioEvent::PinOn)),
        ),
{
}

/// A load from a pin-function-select address puts the raw address value, not
/// memory content, in the destination register.
pub proof fn lemma_pin_select_load_gets_address(s: State, rd_reg: u32)
    requires
        rd_reg < 16,
    ensures
        spec_access(s, rd_reg, 0x20200000, true) == (
            s.with_reg(rd_reg, 0x20200000),
            Ok::<Option<MmioEvent>, FatalError>(Some(MmioEvent::PinAccess { region: 0 })),
        ),
{
    assert((0x20200000u32 & 0xF) >> 2 == 0) by (bit_vector);
}

/// An access at `MEMSIZE - 4` or above that hits no special address leaves
/// every register and every byte of memory unchanged and only reports the
/// out-of-bounds event.
pub proof fn lemma_out_of_bounds_access_is_noop(s: State, rd_reg: u32, memloc: u32, l: bool)
    requires
        memloc >= (MEMSIZE - 4) as u32,
        memloc != 0x20200000 && memloc != 0x20200004 && memloc != 0x20200008,
        !(memloc == 0x2020001C && !l) && !(memloc == 0x20200028 && !l),
    ensures
        spec_access(s, rd_reg, memloc, l) == (
            s,
            Ok::<Option<MmioEvent>, FatalError>(Some(MmioEvent::OutOfBounds { address: memloc })),
        ),
{
}

/// A branch whose encoded offset is zero moves the program counter back by
/// exactly one word, undoing the prefetch advance of the cycle that executed
/// it: over a whole cycle the program counter does not drift.
pub proof fn lemma_branch_offset_zero(s: State, instruction: u32)
    requires
        s.wf(),
        bits(instruction, 0, 23) == 0,
        !bit(instruction, 23),
    ensures
        crate::branch::spec_branch(s, instruction).regs[PC as int] == u32_specs::wrapping_sub(
            s.regs[PC as int],
            4,
        ),
{
}

} // verus!
