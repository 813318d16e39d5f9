use vstd::prelude::*;

use crate::never::{lemma_never_excluded, Never};
use crate::step::{Pollable, Step};

verus! {

/// A computation that suspends forever: the shape of a background task that
/// sleeps, does its work, and never intends to complete. Its output type is
/// `Never`, so completion is not merely unexpected but impossible.
pub struct ForeverPending {
    polls: Ghost<nat>,
}

impl ForeverPending {
    /// A fresh computation with an empty drive history.
    pub fn new() -> (r: Self)
        ensures
            r.steps() == 0,
            r.suspensions() == 0,
    {
        ForeverPending { polls: Ghost(0nat) }
    }
}

impl Pollable for ForeverPending {
    type Output = Never;

    closed spec fn steps(&self) -> nat {
        self.polls@
    }

    closed spec fn suspensions(&self) -> nat {
        self.polls@
    }

    /// Every step suspends.
    open spec fn step_spec(&self, post: Self, r: Step<Never>) -> bool {
        r is Pending
    }

    fn poll(&mut self) -> (r: Step<Never>) {
        self.polls = Ghost(self.polls@ + 1);
        Step::Pending
    }
}

/// A computation that suspends a fixed number of times and then fails.
///
/// Its output type is `Result<Never, String>`: the success arm is
/// uninhabited, so the only value it can ever complete with is its error.
/// This is the declared shape of a task that is supposed to run forever but
/// can break: failure travels in a channel of its own, separate from the
/// (impossible) success.
pub struct FailAfter {
    fuse: usize,
    err: Option<String>,
    polls: Ghost<nat>,
    quiet: Ghost<nat>,
}

impl FailAfter {
    /// How many more drive steps will suspend before the failure fires.
    pub closed spec fn pending_steps(&self) -> nat {
        self.fuse as nat
    }

    /// The failure still waiting to fire, if it has not fired yet.
    pub closed spec fn error(&self) -> Option<String> {
        self.err
    }

    /// A computation that reports "still suspended" for `pending_polls`
    /// drive steps and fails with `error` on the step after them.
    pub fn new(pending_polls: usize, error: String) -> (r: Self)
        ensures
            r.pending_steps() == pending_polls,
            r.error() == Some(error),
            r.steps() == 0,
            r.suspensions() == 0,
    {
        FailAfter { fuse: pending_polls, err: Some(error), polls: Ghost(0nat), quiet: Ghost(0nat) }
    }
}

impl Pollable for FailAfter {
    type Output = Result<Never, String>;

    closed spec fn steps(&self) -> nat {
        self.polls@
    }

    closed spec fn suspensions(&self) -> nat {
        self.quiet@
    }

    /// While the fuse lasts, each step suspends and shortens it; the first
    /// step past the fuse completes with the error; after that — reachable
    /// only if the computation keeps being driven once it has already
    /// failed — it suspends without further effect.
    open spec fn step_spec(&self, post: Self, r: Step<Result<Never, String>>) -> bool {
        if self.pending_steps() > 0 {
            &&& r is Pending
            &&& post.pending_steps() == self.pending_steps() - 1
            &&& post.error() == self.error()
        } else {
            match self.error() {
                Some(e) => {
                    &&& r == Step::<Result<Never, String>>::Ready(Err(e))
                    &&& post.pending_steps() == 0
                    &&& post.error() is None
                },
                None => {
                    &&& r is Pending
                    &&& post.pending_steps() == 0
                    &&& post.error() is None
                },
            }
        }
    }

    fn poll(&mut self) -> (r: Step<Result<Never, String>>) {
        self.polls = Ghost(self.polls@ + 1);
        if self.fuse > 0 {
            self.fuse = self.fuse - 1;
            self.quiet = Ghost(self.quiet@ + 1);
            Step::Pending
        } else {
            let mut taken: Option<String> = None;
            core::mem::swap(&mut taken, &mut self.err);
            match taken {
                Some(e) => Step::Ready(Err(e)),
                None => {
                    self.quiet = Ghost(self.quiet@ + 1);
                    Step::Pending
                },
            }
        }
    }
}

/// Extracts the failure from a completed value whose success arm is
/// uninhabited: the only value such a result can hold is its error.
pub fn failure_of<E>(res: Result<Never, E>) -> (e: E)
    ensures
        res == Result::<Never, E>::Err(e),
{
    match res {
        Ok(n) => {
            proof {
                use_type_invariant(&n);
                lemma_never_excluded(n);
            }
            vstd::pervasive::unreached()
        },
        Err(e) => e,
    }
}

} // verus!
