//! The seeded pseudo-random generator behind the scheduler's draws.
//!
//! The executor's decisions take the random draws as arguments, so the
//! whole schedule is a function of the seed's draw sequence.  This module
//! holds the one source of those draws — a seeded generator from the
//! `rand` crate behind trusted declarations — and the convenience methods
//! that draw and step in one call.  Their contracts state what holds of
//! every possible draw; the draw-taking methods carry the exact ones.

use vstd::prelude::*;

use crate::executor::{run_next_out, run_next_spec, Executor, StepOutcome};

verus! {

#[verifier::external_type_specification]
#[verifier::external_body]
pub struct ExStdRng(rand::rngs::StdRng);

/// Relies on `rand::SeedableRng::seed_from_u64`: builds a deterministic
/// generator from a 64-bit seed.
#[verifier::external_body]
pub fn rng_from_seed(seed: u64) -> (r: rand::rngs::StdRng) {
    <rand::rngs::StdRng as rand::SeedableRng>::seed_from_u64(seed)
}

/// Relies on `rand::Rng::gen_range`: a sample from `lo..hi` lies in
/// `[lo, hi)`.  The call panics only on an empty range, which the
/// precondition rules out.
#[verifier::external_body]
pub(crate) fn gen_range_u64(rng: &mut rand::rngs::StdRng, lo: u64, hi: u64) -> (r: u64)
    requires
        lo < hi,
    ensures
        lo <= r < hi,
{
    rand::Rng::gen_range(rng, lo..hi)
}

impl Executor {
    /// One drain-phase decision with the selection drawn from the
    /// generator: some draw determines the outcome, and any ready entry
    /// may be the one selected.  Everything [`Executor::run_next`]
    /// guarantees for every draw — killed tasks never run, paused tasks
    /// are parked, time does not move — holds of the result.
    pub fn run_next_with(&mut self, rng: &mut rand::rngs::StdRng) -> (r: StepOutcome)
        requires
            old(self)@.wf(),
            old(self).current is None,
        ensures
            exists|sel: u64|
                r == #[trigger] run_next_out(old(self)@, sel) && final(self)@ == run_next_spec(
                    old(self)@,
                    sel,
                ),
            final(self)@.wf(),
    {
        let len = self.handle.ready.len();
        let sel = if len == 0 {
            0
        } else {
            gen_range_u64(rng, 0, len as u64)
        };
        let r = self.run_next(sel);
        proof {
            assert(r == run_next_out(old(self)@, sel) && self@ == run_next_spec(
                old(self)@,
                sel,
            ));
        }
        r
    }

    /// Ends the poll of the current task with the post-poll bump drawn
    /// from the generator: virtual time advances by some 50 to 99
    /// nanoseconds, the current-task slot is cleared, and nothing else
    /// changes.
    pub fn finish_poll_with(&mut self, rng: &mut rand::rngs::StdRng)
        requires
            old(self).current is Some,
            old(self).time + 99 <= u64::MAX,
        ensures
            final(self)@.current is None,
            old(self)@.time + 50 <= final(self)@.time <= old(self)@.time + 99,
            final(self)@.handle == old(self)@.handle,
            final(self)@.time_limit == old(self)@.time_limit,
    {
        let bump = gen_range_u64(rng, 50, 100);
        self.finish_poll(bump);
    }
}

} // verus!
