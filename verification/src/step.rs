use vstd::prelude::*;

verus! {

/// The outcome of one drive step of a suspendable computation: either the
/// computation is still suspended, or it has completed with a value.
#[derive(Debug, PartialEq, Eq)]
pub enum Step<T> {
    /// Still suspended; drive again later.
    Pending,
    /// Completed, carrying the produced value.
    Ready(T),
}

/// A suspendable computation, driven toward completion one step at a time.
///
/// Each implementor describes its own behaviour twice over: two counters
/// record the drive history (`steps` absorbed, `suspensions` signalled), and
/// `step_spec` says exactly what a single drive step may do to the state and
/// what outcome it may report.
pub trait Pollable: Sized {
    type Output;

    /// How many drive steps the computation has absorbed so far.
    spec fn steps(&self) -> nat;

    /// How many "still suspended" signals it has produced so far.
    spec fn suspensions(&self) -> nat;

    /// What one drive step may do: relates the state before the step to the
    /// state after it and to the reported outcome.
    spec fn step_spec(&self, post: Self, r: Step<Self::Output>) -> bool;

    /// Drive the computation one step. Every step is counted, a suspension
    /// signal is counted exactly when one is reported, and the step behaves
    /// as the implementor's `step_spec` says.
    fn poll(&mut self) -> (r: Step<Self::Output>)
        ensures
            final(self).steps() == old(self).steps() + 1,
            r is Pending ==> final(self).suspensions() == old(self).suspensions() + 1,
            !(r is Pending) ==> final(self).suspensions() == old(self).suspensions(),
            old(self).step_spec(*final(self), r),
    ;
}

} // verus!
