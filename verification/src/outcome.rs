//! The terminal marker of one verification run.
//!
//! A run never aborts: decoding failures and verifier rejection all fold
//! into this one signal, and the only transition is `Pending -> Spoiled`.
//! Validity is the absence of that transition when the run ends.

use vstd::prelude::*;

verus! {

/// Terminal state of one verification invocation.
///
/// `Pending` means no failure has been recorded so far; `Spoiled` means
/// some step failed and the run's trace must never verify as an accepting
/// proof. There is no explicit "valid" state: a run that ends while the
/// signal is still `Pending` is the accepting outcome.
#[derive(Clone, Copy, Debug, PartialEq, Eq, Structural)]
pub enum OutcomeSignal {
    Pending,
    Spoiled,
}

impl OutcomeSignal {
    /// A fresh run starts with no failure recorded.
    pub fn new() -> (r: OutcomeSignal)
        ensures
            r == OutcomeSignal::Pending,
    {
        OutcomeSignal::Pending
    }

    /// True exactly on the spoiled state.
    pub fn is_spoiled(&self) -> (r: bool)
        ensures
            r == (*self == OutcomeSignal::Spoiled),
    {
        match self {
            OutcomeSignal::Pending => false,
            OutcomeSignal::Spoiled => true,
        }
    }

    /// Record a failure: the signal becomes `Spoiled` whatever it was.
    pub fn spoil(&mut self)
        ensures
            *final(self) == OutcomeSignal::Spoiled,
    {
        *self = OutcomeSignal::Spoiled;
    }

    /// Fold one step's validity flag into the signal: a failed step spoils
    /// it, a successful step leaves it unchanged.
    pub fn absorb(&mut self, step_ok: bool)
        ensures
            *final(self) == signal_after(*old(self), step_ok),
            *old(self) == OutcomeSignal::Spoiled ==> *final(self) == OutcomeSignal::Spoiled,
    {
        if !step_ok {
            *self = OutcomeSignal::Spoiled;
        }
    }
}

/// The signal is monotonic: no sequence of absorbed step results ever takes
/// a spoiled signal back to `Pending`, and a step that fails always leaves
/// it spoiled.
pub proof fn lemma_signal_monotonic(pre: OutcomeSignal, step_ok: bool)
    ensures
        pre == OutcomeSignal::Spoiled ==> signal_after(pre, step_ok) == OutcomeSignal::Spoiled,
        !step_ok ==> signal_after(pre, step_ok) == OutcomeSignal::Spoiled,
{
}

/// What `absorb` does, as a pure function of the prior signal and the step's
/// validity flag.
pub open spec fn signal_after(pre: OutcomeSignal, step_ok: bool) -> OutcomeSignal {
    if step_ok {
        pre
    } else {
        OutcomeSignal::Spoiled
    }
}

} // verus!
