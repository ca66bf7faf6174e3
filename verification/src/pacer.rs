//! The clock that paces the automated side.
//!
//! Time is counted in whole nanoseconds. The pacer adds up the time that
//! passes; when a full interval has gathered, a decision is due, and what
//! exceeds whole intervals is carried into the next one.

use vstd::arithmetic::div_mod::lemma_mod_add_multiples_vanish;
use vstd::arithmetic::div_mod::lemma_small_mod;
use vstd::prelude::*;

verus! {

/// The default interval between automated decisions: half a second.
pub const DEFAULT_INTERVAL_NANOS: u64 = 500_000_000;

/// A pacer as a mathematical value.
pub struct PacerState {
    /// The time between two decisions.
    pub interval: nat,
    /// The time gathered towards the next decision.
    pub elapsed: nat,
}

impl PacerState {
    /// Less than an interval is ever kept.
    pub open spec fn wf(self) -> bool {
        if self.interval == 0 {
            self.elapsed == 0
        } else {
            self.elapsed < self.interval
        }
    }

    /// Whether a decision is due once `delta` more has passed.
    pub open spec fn due(self, delta: nat) -> bool {
        self.elapsed + delta >= self.interval
    }

    /// The pacer once `delta` more has passed.
    pub open spec fn after(self, delta: nat) -> PacerState {
        PacerState {
            interval: self.interval,
            elapsed: if self.interval == 0 {
                0
            } else {
                (self.elapsed + delta) % self.interval
            },
        }
    }
}

/// A well-formed pacer stays well-formed, whatever time passes.
pub proof fn lemma_pacer_stays_wf(pacer: PacerState, delta: nat)
    requires
        pacer.wf(),
    ensures
        pacer.after(delta).wf(),
{
    if pacer.interval > 0 {
        assert(0 <= ((pacer.elapsed + delta) as int) % (pacer.interval as int) < pacer.interval)
            by (nonlinear_arith)
            requires
                pacer.interval > 0,
        ;
    }
}

/// Until a decision is due, the pacer keeps all the time that has passed.
pub proof fn lemma_pacer_gathers(pacer: PacerState, delta: nat)
    requires
        pacer.wf(),
        !pacer.due(delta),
    ensures
        pacer.after(delta).elapsed == pacer.elapsed + delta,
{
    lemma_small_mod(pacer.elapsed + delta, pacer.interval);
}

/// Fires once per interval of elapsed time.
#[derive(Clone, Copy, Debug)]
pub struct DecisionPacer {
    interval: u64,
    elapsed: u64,
}

impl View for DecisionPacer {
    type V = PacerState;

    closed spec fn view(&self) -> PacerState {
        PacerState { interval: self.interval as nat, elapsed: self.elapsed as nat }
    }
}

impl DecisionPacer {
    /// A pacer that has gathered no time yet. With an interval of zero a
    /// decision is due at every advance.
    pub fn new(interval_nanos: u64) -> (pacer: Self)
        ensures
            pacer@.wf(),
            pacer@.interval == interval_nanos,
            pacer@.elapsed == 0,
    {
        DecisionPacer { interval: interval_nanos, elapsed: 0 }
    }

    /// The time between two decisions, in nanoseconds.
    pub fn interval(&self) -> (interval: u64)
        ensures
            interval == self@.interval,
    {
        self.interval
    }

    /// The time gathered towards the next decision, in nanoseconds.
    pub fn elapsed(&self) -> (elapsed: u64)
        ensures
            elapsed == self@.elapsed,
    {
        self.elapsed
    }

    /// Lets `delta_nanos` pass and says whether a decision is due. At most
    /// one decision is due per advance, however long the time.
    pub fn advance(&mut self, delta_nanos: u64) -> (due: bool)
        requires
            old(self)@.wf(),
        ensures
            final(self)@.wf(),
            due == old(self)@.due(delta_nanos as nat),
            final(self)@ == old(self)@.after(delta_nanos as nat),
    {
        if self.interval == 0 {
            return true;
        }
        let room: u64 = self.interval - self.elapsed;
        if delta_nanos < room {
            proof {
                lemma_small_mod((self.elapsed + delta_nanos) as nat, self.interval as nat);
            }
            self.elapsed = self.elapsed + delta_nanos;
            false
        } else {
            let beyond: u64 = delta_nanos - room;
            proof {
                lemma_mod_add_multiples_vanish(beyond as int, self.interval as int);
                assert(self.interval + beyond == self.elapsed + delta_nanos);
            }
            self.elapsed = beyond % self.interval;
            true
        }
    }
}

impl Default for DecisionPacer {
    fn default() -> (pacer: Self)
        ensures
            pacer@.wf(),
            pacer@.interval == DEFAULT_INTERVAL_NANOS,
            pacer@.elapsed == 0,
    {
        DecisionPacer::new(DEFAULT_INTERVAL_NANOS)
    }
}

} // verus!
