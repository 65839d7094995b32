//! The background task runner's decision core. The runner schedules the
//! transformation on a worker pool disjoint from the host's own I/O pool —
//! disjointness is the structural deadlock-avoidance rule and belongs to the
//! code that owns the pools — and publishes the outcome through a one-shot
//! completion gate that either fulfills or rejects the host-visible deferred
//! value, exactly once, by the outcome's success or failure alone.

use vstd::prelude::*;

verus! {

/// Which way the host-visible deferred value is settled.
#[derive(Clone, Copy, PartialEq, Eq, Debug)]
pub enum CompletionBranch {
    /// The deferred value resolves with the result.
    Fulfill,
    /// The deferred value rejects with the failure.
    Reject,
}

/// The branch a finished task takes: fulfillment exactly on success,
/// rejection exactly on failure, never by the content of the payload.
pub fn completion_branch<T, E>(result: &Result<T, E>) -> (b: CompletionBranch)
    ensures
        b is Fulfill <==> result is Ok,
{
    match result {
        Ok(_) => CompletionBranch::Fulfill,
        Err(_) => CompletionBranch::Reject,
    }
}

/// The one-shot completion gateway paired with one deferred value: it is
/// settled exactly once, and remembers which branch was taken.
pub struct CompletionGate {
    settlement: Option<CompletionBranch>,
}

impl CompletionGate {
    /// The branch taken so far, if any.
    pub closed spec fn settlement(&self) -> Option<CompletionBranch> {
        self.settlement
    }

    /// A fresh gate: not yet settled.
    pub fn new() -> (g: CompletionGate)
        ensures
            g.settlement() is None,
    {
        CompletionGate { settlement: None }
    }

    pub fn is_settled(&self) -> (b: bool)
        ensures
            b == (self.settlement() is Some),
    {
        self.settlement.is_some()
    }

    /// Records the result of a finished run, at most once; the branch
    /// depends on success or failure alone.
    pub fn settle<T, E>(&mut self, result: &Result<T, E>) -> (b: CompletionBranch)
        requires
            old(self).settlement() is None,
        ensures
            final(self).settlement() == Some(b),
            b is Fulfill <==> result is Ok,
    {
        let b = completion_branch(result);
        self.settlement = Some(b);
        b
    }
}

} // verus!
