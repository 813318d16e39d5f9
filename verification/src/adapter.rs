use vstd::prelude::*;

use crate::never::{lemma_never_excluded, Never};
use crate::step::{Pollable, Step};

verus! {

/// Turn a never-completing computation into one declared to yield any
/// desired type.
///
/// The wrapped computation's output type is `Never`, so it can never
/// complete; re-typing its output as `T` is therefore harmless, and lets it
/// stand wherever a computation of output `T` is expected. The adapter adds
/// no behaviour of its own: each of its drive steps drives the inner
/// computation exactly once and forwards the suspension signal unchanged.
///
/// Only the (impossible) success type is adapted. A computation that needs
/// to be able to fail must declare its failure through a channel of its own
/// — an output of `Result` whose success arm is uninhabited, as `FailAfter`
/// does — and such an output is not `Never`, so the adapter does not accept
/// it and can never mask it: the failure reaches whoever drives that
/// computation directly. The chosen `T` may itself be such a `Result` type,
/// so that a never-completing task can stand beside tasks that genuinely
/// fail.
#[must_use]
pub struct AbsurdFuture<F, T> {
    inner: F,
    _marker: core::marker::PhantomData<T>,
}

impl<F, T> AbsurdFuture<F, T> {
    /// The wrapped computation, for specification purposes.
    pub closed spec fn wrapped(&self) -> F {
        self.inner
    }

    /// Creates a new `AbsurdFuture` that wraps the given computation.
    pub fn new(inner: F) -> (r: Self)
        ensures
            r.wrapped() == inner,
    {
        AbsurdFuture { inner, _marker: core::marker::PhantomData }
    }
}

impl<F: Pollable<Output = Never>, T> Pollable for AbsurdFuture<F, T> {
    type Output = T;

    open spec fn steps(&self) -> nat {
        self.wrapped().steps()
    }

    open spec fn suspensions(&self) -> nat {
        self.wrapped().suspensions()
    }

    /// An adapter step is a suspension, always, and is exactly one
    /// suspending step of the wrapped computation.
    open spec fn step_spec(&self, post: Self, r: Step<T>) -> bool {
        &&& r is Pending
        &&& self.wrapped().step_spec(post.wrapped(), Step::Pending)
    }

    /// Drives the inner computation once and forwards its suspension. The
    /// completed branch would require a value of `Never` to exist, so it is
    /// unreachable.
    fn poll(&mut self) -> (r: Step<T>) {
        match self.inner.poll() {
            Step::Pending => Step::Pending,
            Step::Ready(n) => {
                proof {
                    use_type_invariant(&n);
                    lemma_never_excluded(n);
                }
                vstd::pervasive::unreached()
            },
        }
    }
}

impl<F: Pollable<Output = Never>, T> AbsurdFuture<F, T> {
    /// Drives the adapter `n` steps and counts the suspension signals
    /// observed. Every step suspends, so the count is exactly `n`: the
    /// adapted interface can never be observed in a completed state, however
    /// long it is driven.
    pub fn drive(&mut self, n: usize) -> (pendings: usize)
        ensures
            pendings == n,
            final(self).steps() == old(self).steps() + n,
            final(self).suspensions() == old(self).suspensions() + n,
    {
        let mut i: usize = 0;
        let mut pendings: usize = 0;
        while i < n
            invariant
                i <= n,
                pendings == i,
                self.steps() == old(self).steps() + i,
                self.suspensions() == old(self).suspensions() + i,
            decreases n - i,
        {
            let r = self.poll();
            if matches!(r, Step::<T>::Pending) {
                pendings = pendings + 1;
            }
            i = i + 1;
        }
        pendings
    }
}

/// The adapted interface has no completed state: whatever outcome one of
/// the adapter's drive steps can report, it is a suspension. Completion
/// would take a value of the uninhabited output type, and none exists.
pub proof fn lemma_adapter_never_completes<F: Pollable<Output = Never>, T>(
    a: AbsurdFuture<F, T>,
    post: AbsurdFuture<F, T>,
    r: Step<T>,
)
    requires
        a.step_spec(post, r),
    ensures
        r is Pending,
{
}

/// The adapter is an identity pass-through for suspension: at every moment
/// its drive history is exactly the wrapped computation's, so over any run
/// it has produced precisely as many suspension signals, and absorbed
/// precisely as many drive steps, as the computation it wraps.
pub proof fn lemma_suspension_pass_through<F: Pollable<Output = Never>, T>(a: AbsurdFuture<F, T>)
    ensures
        a.steps() == a.wrapped().steps(),
        a.suspensions() == a.wrapped().suspensions(),
{
}

/// Wraps a computation that never completes and gives it an arbitrary
/// output type.
pub fn absurd_future<F: Pollable<Output = Never>, T>(future: F) -> (r: AbsurdFuture<F, T>)
    ensures
        r.wrapped() == future,
{
    AbsurdFuture::new(future)
}

} // verus!
