use absurd_future::absurd_future;
use absurd_future::AbsurdFuture;
use absurd_future::failure_of;
use absurd_future::FailAfter;
use absurd_future::ForeverPending;
use absurd_future::Never;
use absurd_future::Pollable;
use absurd_future::Step;

#[test]
fn adapter_never_completes() {
    // Drive an adapted never-completing computation many times: every
    // single step must report "still suspended".
    let mut fut: AbsurdFuture<ForeverPending, u64> = absurd_future(ForeverPending::new());
    for _ in 0..100 {
        assert!(matches!(fut.poll(), Step::Pending));
    }
}

#[test]
fn adapter_counts_every_suspension() {
    // Over any number of drive steps the adapter yields exactly that many
    // suspension signals: an identity pass-through of the inner
    // computation's, which suspends on every step as well.
    let mut fut: AbsurdFuture<ForeverPending, String> = absurd_future(ForeverPending::new());
    assert_eq!(fut.drive(10), 10);
    assert_eq!(fut.drive(0), 0);
    assert_eq!(fut.drive(1000), 1000);
}

#[test]
fn adapter_new_matches_free_function() {
    let mut a: AbsurdFuture<ForeverPending, u32> = AbsurdFuture::new(ForeverPending::new());
    let mut b: AbsurdFuture<ForeverPending, u32> = absurd_future(ForeverPending::new());
    assert!(matches!(a.poll(), Step::Pending));
    assert!(matches!(b.poll(), Step::Pending));
}

#[test]
fn scenario_manual_drive_never_reaches_ready() {
    // A value of the uninhabited type cannot be constructed, so no test
    // harness can drive the adapted interface to a completed state; a long
    // manual drive only ever observes suspension.
    let mut fut: AbsurdFuture<ForeverPending, Result<(), String>> =
        absurd_future(ForeverPending::new());
    assert_eq!(fut.drive(10_000), 10_000);
    assert!(matches!(fut.poll(), Step::Pending));
}

#[test]
fn fail_after_suspends_then_fails() {
    // Two suspending steps, then the failure fires, carried in the error
    // arm: the success arm of its output is uninhabited.
    let mut task = FailAfter::new(2, String::from("counter reached limit"));
    assert!(matches!(task.poll(), Step::Pending));
    assert!(matches!(task.poll(), Step::Pending));
    match task.poll() {
        Step::Ready(res) => {
            let err = failure_of(res);
            assert_eq!(err, "counter reached limit");
        },
        Step::Pending => panic!("the failure was due on the third drive step"),
    }
}

#[test]
fn fail_after_zero_fails_at_once() {
    // An empty fuse fails on the very first drive step.
    let mut task = FailAfter::new(0, String::from("immediate"));
    match task.poll() {
        Step::Ready(Err(e)) => assert_eq!(e, "immediate"),
        _ => panic!("the failure was due on the first drive step"),
    }
}

#[test]
fn fail_after_stays_quiet_once_fired() {
    // Driving a failed computation further only yields suspensions: the
    // failure is delivered exactly once.
    let mut task = FailAfter::new(1, String::from("once"));
    assert!(matches!(task.poll(), Step::Pending));
    assert!(matches!(task.poll(), Step::Ready(Err(_))));
    assert!(matches!(task.poll(), Step::Pending));
    assert!(matches!(task.poll(), Step::Pending));
}

#[test]
fn forever_pending_never_ready() {
    let mut task = ForeverPending::new();
    for _ in 0..50 {
        let r: Step<Never> = task.poll();
        assert!(matches!(r, Step::Pending));
    }
}
