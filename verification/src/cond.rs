//! Condition-code gating: a 4-bit condition field and the current flags
//! decide whether an instruction executes.

use vstd::prelude::*;
use crate::bits::bits;
use crate::bits::get_bits;
use crate::state::State;
use crate::state::CPU;

verus! {

/// The supported condition codes, with a fallback for every other code value.
#[derive(Clone, Copy, Debug, PartialEq, Eq, Structural)]
pub enum Condition {
    /// Code 0: execute when Z is set.
    Equal,
    /// Code 1: execute when Z is clear.
    NotEqual,
    /// Code 10: execute when N equals V.
    GreaterOrEqual,
    /// Code 11: execute when N differs from V.
    LessThan,
    /// Code 12: execute when Z is clear and N equals V.
    GreaterThan,
    /// Code 13: execute when Z is set or N differs from V.
    LessOrEqual,
    /// Code 14: always execute.
    Always,
    /// Any other code: the instruction is skipped, never an error.
    Unrecognized,
}

/// The condition named by a 4-bit code.
pub open spec fn spec_condition_of(code: u32) -> Condition {
    if code == 0 {
        Condition::Equal
    } else if code == 1 {
        Condition::NotEqual
    } else if code == 10 {
        Condition::GreaterOrEqual
    } else if code == 11 {
        Condition::LessThan
    } else if code == 12 {
        Condition::GreaterThan
    } else if code == 13 {
        Condition::LessOrEqual
    } else if code == 14 {
        Condition::Always
    } else {
        Condition::Unrecognized
    }
}

/// Whether a condition holds of the flags N, Z, V.
pub open spec fn spec_condition_holds(cond: Condition, n: bool, z: bool, v: bool) -> bool {
    match cond {
        Condition::Equal => z,
        Condition::NotEqual => !z,
        Condition::GreaterOrEqual => n == v,
        Condition::LessThan => n != v,
        Condition::GreaterThan => !z && n == v,
        Condition::LessOrEqual => z || n != v,
        Condition::Always => true,
        Condition::Unrecognized => false,
    }
}

/// Whether the instruction word's condition field (bits 28-31) holds of the
/// state's flags.
pub open spec fn spec_check_condition(s: State, instruction: u32) -> bool {
    spec_condition_holds(spec_condition_of(bits(instruction, 28, 4)), s.n, s.z, s.v)
}

/// The condition named by a 4-bit code.
pub fn condition_of(code: u32) -> (c: Condition)
    ensures
        c == spec_condition_of(code),
{
    if code == 0 {
        Condition::Equal
    } else if code == 1 {
        Condition::NotEqual
    } else if code == 10 {
        Condition::GreaterOrEqual
    } else if code == 11 {
        Condition::LessThan
    } else if code == 12 {
        Condition::GreaterThan
    } else if code == 13 {
        Condition::LessOrEqual
    } else if code == 14 {
        Condition::Always
    } else {
        Condition::Unrecognized
    }
}

impl CPU {
    /// Use the condition bits of an instruction and the current flags to
    /// decide whether the instruction should be executed.
    pub fn check_condition(&self, instruction: &u32) -> (r: bool)
        ensures
            r == spec_check_condition(self@, *instruction),
    {
        let cond = condition_of(get_bits(instruction, 28, 4));
        match cond {
            Condition::Equal => self.cpsr.z,
            Condition::NotEqual => !self.cpsr.z,
            Condition::GreaterOrEqual => self.cpsr.n == self.cpsr.v,
            Condition::LessThan => self.cpsr.n != self.cpsr.v,
            Condition::GreaterThan => !self.cpsr.z && self.cpsr.n == self.cpsr.v,
            Condition::LessOrEqual => self.cpsr.z || self.cpsr.n != self.cpsr.v,
            Condition::Always => true,
            Condition::Unrecognized => false,
        }
    }
}

} // verus!
