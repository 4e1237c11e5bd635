//! The fetch-decode-execute cycle and the dispatch loop. Each cycle advances
//! the program counter by one word, fetches the word two instructions behind
//! it (the prefetch model), halts on an all-zero sentinel word, gates on the
//! condition field, and classifies the word by fixed bit patterns.

use vstd::prelude::*;
use crate::bits::bits;
use crate::bits::get_bits;
use crate::branch::spec_branch;
use crate::cond::spec_check_condition;
use crate::dataproc::spec_data_proc;
use crate::multiply::spec_multiply;
use crate::outcome::FatalError;
use crate::outcome::MmioEvent;
use crate::outcome::StepOutcome;
use crate::state::word_at;
use crate::state::MEMSIZE;
use crate::state::PC;
use crate::state::State;
use crate::state::CPU;
use crate::transfer::spec_transfer;
use vstd::wrapping::u32_specs;

verus! {

/// One fetch-decode-execute cycle on state `pre`: the state after it, and
/// what the cycle did. The program counter first moves up one word; the word
/// two words behind it is fetched (a fetch from outside memory is fatal). An
/// all-zero word halts; a false condition skips; otherwise the word is
/// classified as branch, single transfer, multiply or data-processing by its
/// bit pattern, and a word that matches no pattern is fatal.
pub open spec fn spec_step(pre: State) -> (State, Result<StepOutcome, FatalError>)
    recommends
        pre.wf(),
{
    let s = pre.with_reg(PC, u32_specs::wrapping_add(pre.regs[PC as int], 4));
    let fetch = u32_specs::wrapping_sub(s.regs[PC as int], 8);
    if fetch as int + 4 > MEMSIZE {
        (s, Err(FatalError::FetchOutOfBounds { address: fetch }))
    } else {
        let w = word_at(s.mem, fetch as int);
        if w == 0 {
            (s, Ok(StepOutcome::Halted))
        } else if !spec_check_condition(s, w) {
            (s, Ok(StepOutcome::Skipped))
        } else if bits(w, 24, 4) == 12 {
            (spec_branch(s, w), Ok(StepOutcome::Executed(None)))
        } else if bits(w, 26, 2) != 0 && bits(w, 21, 2) == 0 {
            let (s2, res) = spec_transfer(s, w);
            match res {
                Ok(ev) => (s2, Ok(StepOutcome::Executed(ev))),
                Err(e) => (s2, Err(e)),
            }
        } else if bits(w, 22, 6) == 0 && bits(w, 4, 4) == 9 {
            let (s2, res) = spec_multiply(s, w);
            match res {
                Ok(_) => (s2, Ok(StepOutcome::Executed(None))),
                Err(e) => (s2, Err(e)),
            }
        } else if bits(w, 26, 2) == 0 {
            let (s2, res) = spec_data_proc(s, w);
            match res {
                Ok(_) => (s2, Ok(StepOutcome::Executed(None))),
                Err(e) => (s2, Err(e)),
            }
        } else {
            (s, Err(FatalError::InvalidInstruction { instruction: w }))
        }
    }
}

/// One cycle takes `pre` to `post` without halting or faulting.
pub open spec fn spec_step_continues(pre: State, post: State) -> bool {
    spec_step(pre).0 == post && (spec_step(pre).1 matches Ok(o) && !(o is Halted))
}

/// The states a run passes through, first to last: consecutive states are one
/// cycle apart, and no cycle between them halted or faulted.
pub open spec fn is_run_trace(t: Seq<State>) -> bool {
    t.len() >= 1 && forall|i: int|
        0 <= i < t.len() - 1 ==> #[trigger] spec_step_continues(t[i], t[i + 1])
}

/// The events one cycle from `pre` makes observable.
pub open spec fn spec_step_events(pre: State) -> Seq<MmioEvent> {
    match spec_step(pre).1 {
        Ok(StepOutcome::Executed(Some(e))) => seq![e],
        _ => seq![],
    }
}

/// The events of every cycle between consecutive states of a trace, in order.
pub open spec fn spec_trace_events(t: Seq<State>) -> Seq<MmioEvent>
    decreases t.len(),
{
    if t.len() <= 1 {
        seq![]
    } else {
        spec_step_events(t[0]) + spec_trace_events(t.drop_first())
    }
}

/// Extending a trace by one state appends the events of the cycle that the
/// old last state ran.
pub proof fn lemma_trace_events_push(t: Seq<State>, s: State)
    requires
        t.len() >= 1,
    ensures
        spec_trace_events(t.push(s)) == spec_trace_events(t) + spec_step_events(t.last()),
    decreases t.len(),
{
    let t2 = t.push(s);
    if t.len() == 1 {
        assert(t2.drop_first() =~= seq![s]);
        assert(spec_trace_events(t2.drop_first()) =~= Seq::<MmioEvent>::empty());
        assert(spec_trace_events(t) =~= Seq::<MmioEvent>::empty());
        assert(t2[0] == t.last());
        assert(spec_trace_events(t2) =~= spec_step_events(t.last()) + Seq::<
            MmioEvent,
        >::empty());
        assert(spec_trace_events(t2) =~= spec_trace_events(t) + spec_step_events(t.last()));
    } else {
        assert(t2.drop_first() =~= t.drop_first().push(s));
        lemma_trace_events_push(t.drop_first(), s);
        assert(t.drop_first().last() == t.last());
        assert(t2[0] == t[0]);
        assert(spec_trace_events(t2) == spec_step_events(t[0]) + (spec_trace_events(t.drop_first())
            + spec_step_events(t.last())));
        assert(spec_trace_events(t2) =~= (spec_step_events(t[0]) + spec_trace_events(
            t.drop_first(),
        )) + spec_step_events(t.last()));
        assert(spec_trace_events(t2) =~= spec_trace_events(t) + spec_step_events(t.last()));
    }
}

/// A run trace extends by one state when one more cycle ran through.
pub proof fn lemma_extend_run_trace(t: Seq<State>, s: State)
    requires
        is_run_trace(t),
        spec_step_continues(t.last(), s),
    ensures
        is_run_trace(t.push(s)),
        t.push(s).last() == s,
        t.push(s)[0] == t[0],
{
    let t2 = t.push(s);
    assert forall|i: int| 0 <= i < t2.len() - 1 implies #[trigger] spec_step_continues(
        t2[i],
        t2[i + 1],
    ) by {
        if i < t.len() - 1 {
            assert(t2[i] == t[i] && t2[i + 1] == t[i + 1]);
        } else {
            assert(t2[i] == t.last() && t2[i + 1] == s);
        }
    }
}

impl CPU {
    /// Run one fetch-decode-execute cycle.
    pub fn step(&mut self) -> (r: Result<StepOutcome, FatalError>)
        requires
            old(self).wf(),
        ensures
            final(self).wf(),
            ({
                let (s2, res) = spec_step(old(self)@);
                final(self)@ == s2 && r == res
            }),
    {
        let pc_val = self.get_register(PC);
        let new_pc = pc_val.wrapping_add(4);
        self.set_register(PC, new_pc);
        let fetch = new_pc.wrapping_sub(8);
        if fetch > (MEMSIZE as u32) - 4 {
            return Err(FatalError::FetchOutOfBounds { address: fetch });
        }
        let w = self.get_mem_word(fetch as usize);
        if w == 0 {
            return Ok(StepOutcome::Halted);
        }
        if !self.check_condition(&w) {
            return Ok(StepOutcome::Skipped);
        }
        if get_bits(&w, 24, 4) == 12 {
            self.branch_instruction(&w);
            Ok(StepOutcome::Executed(None))
        } else if get_bits(&w, 26, 2) != 0 && get_bits(&w, 21, 2) == 0 {
            match self.single_data_transfer_instruction(&w) {
                Ok(ev) => Ok(StepOutcome::Executed(ev)),
                Err(e) => Err(e),
            }
        } else if get_bits(&w, 22, 6) == 0 && get_bits(&w, 4, 4) == 9 {
            match self.multiple_instruction(&w) {
                Ok(_) => Ok(StepOutcome::Executed(None)),
                Err(e) => Err(e),
            }
        } else if get_bits(&w, 26, 2) == 0 {
            match self.process_data_instruction(&w) {
                Ok(_) => Ok(StepOutcome::Executed(None)),
                Err(e) => Err(e),
            }
        } else {
            Err(FatalError::InvalidInstruction { instruction: w })
        }
    }

    /// Run the machine from a fresh program counter until an all-zero word is
    /// fetched (a clean halt) or a fatal condition stops it, collecting the
    /// memory-mapped I/O events in order. On a clean halt the word fetched
    /// last really was zero. A run of 2^64 - 1 cycles without a halt ends in
    /// `FatalError::CycleLimit`; a caller that wants an endless run drives
    /// `step` itself.
    pub fn run_program(&mut self) -> (r: (Vec<MmioEvent>, Result<(), FatalError>))
        requires
            old(self).wf(),
        ensures
            final(self).wf(),
            r.1 is Ok ==> ({
                let pc = final(self)@.regs[PC as int];
                let fetch = u32_specs::wrapping_sub(pc, 8);
                &&& fetch as int + 4 <= MEMSIZE
                &&& word_at(final(self)@.mem, fetch as int) == 0
            }),
            exists|t: Seq<State>|
                {
                    &&& #[trigger] is_run_trace(t)
                    &&& t[0] == old(self)@.with_reg(PC, 4)
                    &&& r.0@ == spec_trace_events(t)
                    &&& match r.1 {
                        Ok(_) => spec_step(t.last()).1 == Ok::<StepOutcome, FatalError>(
                            StepOutcome::Halted,
                        ) && final(self)@ == spec_step(t.last()).0,
                        // the cycle-limit error comes only once the trace
                        // spans every one of the 2^64 - 1 cycles of the budget
                        Err(e) => (e is CycleLimit && final(self)@ == t.last() && t.len()
                            == 0x1_0000_0000_0000_0000) || (spec_step(t.last()).1 == Err::<
                            StepOutcome,
                            FatalError,
                        >(e) && final(self)@ == spec_step(t.last()).0),
                    }
                },
    {
        self.set_register(PC, 4);
        let ghost mut trace: Seq<State> = seq![self@];
        let mut events: Vec<MmioEvent> = Vec::new();
        let mut fuel: u64 = 0xFFFF_FFFF_FFFF_FFFF;
        while fuel > 0
            invariant
                self.wf(),
                is_run_trace(trace),
                trace[0] == old(self)@.with_reg(PC, 4),
                trace.last() == self@,
                events@ == spec_trace_events(trace),
                trace.len() + fuel == 0x1_0000_0000_0000_0000,
            decreases fuel,
        {
            fuel = fuel - 1;
            let ghost prev = self@;
            match self.step() {
                Ok(StepOutcome::Halted) => {
                    return (events, Ok(()));
                },
                Ok(StepOutcome::Skipped) => {
                    proof {
                        lemma_extend_run_trace(trace, self@);
                        lemma_trace_events_push(trace, self@);
                        trace = trace.push(self@);
                        assert(events@ =~= spec_trace_events(trace));
                    }
                },
                Ok(StepOutcome::Executed(ev)) => {
                    match ev {
                        Some(e) => events.push(e),
                        None => {},
                    }
                    proof {
                        lemma_extend_run_trace(trace, self@);
                        lemma_trace_events_push(trace, self@);
                        trace = trace.push(self@);
                        assert(events@ =~= spec_trace_events(trace));
                    }
                },
                Err(e) => {
                    return (events, Err(e));
                },
            }
        }
        (events, Err(FatalError::CycleLimit))
    }
}

} // verus!
