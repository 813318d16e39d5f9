//! An adapter that re-types a suspendable computation which never completes
//! (its output type is uninhabited) so that it can stand wherever a
//! computation of an arbitrary output type is expected, together with a
//! fail-fast supervisor for groups of such always-running tasks: the first
//! task that terminates — which, by construction, can only happen through
//! failure — has the whole group cancelled and its failure surfaced.

mod adapter;
mod group;
mod never;
mod step;
mod tasks;

pub use adapter::absurd_future;
pub use adapter::lemma_adapter_never_completes;
pub use adapter::lemma_suspension_pass_through;
pub use adapter::AbsurdFuture;
pub use group::event_failure;
pub use group::lemma_cancellation_distinct;
pub use group::lemma_empty_group_distinct;
pub use group::lemma_first_failure_wins;
pub use group::report_of;
pub use group::FailFastGroup;
pub use group::GroupFailure;
pub use group::Phase;
pub use group::TaskOutcome;
pub use group::WaitEvent;
pub use never::lemma_never_excluded;
pub use never::never_excluded;
pub use never::Never;
pub use step::Pollable;
pub use step::Step;
pub use tasks::failure_of;
pub use tasks::FailAfter;
pub use tasks::ForeverPending;
