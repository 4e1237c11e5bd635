//! The single-data-transfer executor: effective-address computation with
//! pre/post-indexing and a signed offset, loads and stores, and the
//! memory-mapped GPIO addresses, which are handled before any generic bounds
//! logic. An address outside memory and outside the GPIO region makes the
//! instruction a no-op with an out-of-bounds event; it is never a fault.

use vstd::prelude::*;
use crate::bits::bit;
use crate::bits::bits;
use crate::bits::get_bit;
use crate::bits::get_bits;
use crate::bits::lemma_bits_bound;
use crate::outcome::FatalError;
use crate::outcome::MmioEvent;
use crate::shifter::spec_shift_operation;
use crate::state::mem_with_word;
use crate::state::word_at;
use crate::state::MEMSIZE;
use crate::state::PC;
use crate::state::State;
use crate::state::CPU;
use vstd::wrapping::u32_specs;

verus! {

/// One data access at `memloc` on state `s`: load into or store from
/// register `rd_reg` per `l`, with the GPIO addresses special-cased first.
/// A pin-function-select address produces a pin-access event, and a load
/// from it puts the raw address value (not memory content) in Rd; the
/// pin-set and pin-clear addresses accept stores only and touch no memory;
/// any other address below `MEMSIZE - 4` is an ordinary word access; all
/// remaining addresses leave the state unchanged and report out-of-bounds.
pub open spec fn spec_access(s: State, rd_reg: u32, memloc: u32, l: bool) -> (
    State,
    Result<Option<MmioEvent>, FatalError>,
)
    recommends
        s.wf(),
        rd_reg < 16,
{
    if memloc == 0x20200008 || memloc == 0x20200004 || memloc == 0x20200000 {
        let region = (((memloc & 0xF) >> 2) * 10) as u32;
        let s2 = if l {
            s.with_reg(rd_reg, memloc)
        } else {
            s
        };
        (s2, Ok(Some(MmioEvent::PinAccess { region })))
    } else if memloc == 0x20200028 && !l {
        (s, Ok(Some(MmioEvent::PinOff)))
    } else if memloc == 0x2020001C && !l {
        (s, Ok(Some(MmioEvent::PinOn)))
    } else if memloc < (MEMSIZE - 4) as u32 {
        if l {
            (s.with_reg(rd_reg, word_at(s.mem, memloc as int)), Ok(None))
        } else {
            (State { mem: mem_with_word(s.mem, memloc as int, s.regs[rd_reg as int]), ..s }, Ok(None))
        }
    } else {
        (s, Ok(Some(MmioEvent::OutOfBounds { address: memloc })))
    }
}

/// One single-data-transfer instruction on state `s`: the state after it and
/// the event it produced, or the fatal condition that stopped it (then the
/// state is unchanged). The offset is a 12-bit immediate (bit 25 clear) or
/// the resolved operand-2 magnitude, sign-applied per the up/down bit 23.
/// Pre-indexing (bit 24) applies the offset to the address; post-indexing
/// accesses the unmodified base first and then always writes the moved base
/// back to Rn — so when Rd and Rn coincide, a store stores the register's
/// value from before the write-back, and a load's result is overwritten by
/// the write-back. Rd must not be the program counter, and a pre-indexed
/// register offset must not name Rd as the offset register.
pub open spec fn spec_transfer(s: State, instruction: u32) -> (
    State,
    Result<Option<MmioEvent>, FatalError>,
)
    recommends
        s.wf(),
{
    let rn_reg = bits(instruction, 16, 4);
    let rd_reg = bits(instruction, 12, 4);
    let i = bit(instruction, 25);
    let p = bit(instruction, 24);
    let u = bit(instruction, 23);
    let l = bit(instruction, 20);
    if rd_reg == PC {
        (s, Err(FatalError::TransferPcDestination { instruction }))
    } else if i && p && bits(instruction, 0, 4) == rd_reg {
        (s, Err(FatalError::TransferAliasedOffset { instruction }))
    } else {
        let mag_res: Result<u32, FatalError> = if i {
            match spec_shift_operation(s, instruction) {
                Ok(pair) => Ok(pair.0),
                Err(e) => Err(e),
            }
        } else {
            Ok(bits(instruction, 0, 12))
        };
        match mag_res {
            Err(e) => (s, Err(e)),
            Ok(mag) => {
                let base = s.regs[rn_reg as int];
                let moved = if u {
                    u32_specs::wrapping_add(base, mag)
                } else {
                    u32_specs::wrapping_sub(base, mag)
                };
                if p {
                    spec_access(s, rd_reg, moved, l)
                } else {
                    let (s2, res) = spec_access(s, rd_reg, base, l);
                    (s2.with_reg(rn_reg, moved), res)
                }
            },
        }
    }
}

impl CPU {
    /// Execute one single-data-transfer instruction: compute the effective
    /// address, perform the load or store (or the memory-mapped GPIO
    /// behavior), and return the event it produced, if any.
    pub fn single_data_transfer_instruction(&mut self, instruction: &u32) -> (r: Result<
        Option<MmioEvent>,
        FatalError,
    >)
        requires
            old(self).wf(),
        ensures
            final(self).wf(),
            ({
                let (s2, res) = spec_transfer(old(self)@, *instruction);
                final(self)@ == s2 && r == res
            }),
    {
        let instr: u32 = *instruction;
        proof {
            lemma_bits_bound(instr, 16, 4);
            lemma_bits_bound(instr, 12, 4);
            lemma_bits_bound(instr, 0, 4);
        }
        let rn_reg = get_bits(&instr, 16, 4);
        let rd_reg = get_bits(&instr, 12, 4);
        let i = get_bit(&instr, 25);
        let p = get_bit(&instr, 24);
        let u = get_bit(&instr, 23);
        let l = get_bit(&instr, 20);

        if rd_reg == PC {
            return Err(FatalError::TransferPcDestination { instruction: instr });
        }
        if i && p && get_bits(&instr, 0, 4) == rd_reg {
            return Err(FatalError::TransferAliasedOffset { instruction: instr });
        }

        let mag: u32;
        if i {
            match self.shift_operation(&instr) {
                Ok(pair) => {
                    mag = pair.0;
                },
                Err(e) => {
                    return Err(e);
                },
            }
        } else {
            mag = get_bits(&instr, 0, 12);
        }

        let base = self.get_register(rn_reg);
        let moved = if u {
            base.wrapping_add(mag)
        } else {
            base.wrapping_sub(mag)
        };
        let memloc: u32 = if p {
            moved
        } else {
            base
        };

        let event: Option<MmioEvent>;
        if memloc == 0x20200008 || memloc == 0x20200004 || memloc == 0x20200000 {
            proof {
                assert((memloc & 0xF) >> 2 <= 3) by (bit_vector);
            }
            let region = ((memloc & 0xF) >> 2) * 10;
            if l {
                self.set_register(rd_reg, memloc);
            }
            event = Some(MmioEvent::PinAccess { region });
        } else if memloc == 0x20200028 && !l {
            event = Some(MmioEvent::PinOff);
        } else if memloc == 0x2020001C && !l {
            event = Some(MmioEvent::PinOn);
        } else if memloc < (MEMSIZE as u32) - 4 {
            if l {
                let w = self.get_mem_word(memloc as usize);
                self.set_register(rd_reg, w);
            } else {
                let v = self.get_register(rd_reg);
                self.set_mem_word(memloc as usize, v);
            }
            event = None;
        } else {
            event = Some(MmioEvent::OutOfBounds { address: memloc });
        }

        // the write-back follows the access, so an aliased Rd is overwritten
        if !p {
            self.set_register(rn_reg, moved);
        }
        Ok(event)
    }
}

} // verus!
