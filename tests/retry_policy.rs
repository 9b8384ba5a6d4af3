use edge_stream::retry::{AcquireDecision, Acquisition, RetryPolicy};

#[test]
fn fails_n_times_then_acquires() {
    let mut acq = Acquisition::new(RetryPolicy::fixed(1000));
    let n = 7;
    for _ in 0..n {
        assert_eq!(acq.record(false), AcquireDecision::RetryAfter(1000));
    }
    assert_eq!(acq.failures, 7);
    assert_eq!(acq.record(true), AcquireDecision::Acquired);
    assert_eq!(acq.failures, 0);
}

#[test]
fn unbounded_policy_never_gives_up() {
    let mut acq = Acquisition::new(RetryPolicy::fixed(5000));
    acq.failures = u64::MAX - 1;
    assert_eq!(acq.record(false), AcquireDecision::RetryAfter(5000));
    assert_eq!(acq.record(false), AcquireDecision::RetryAfter(5000));
    assert_eq!(acq.failures, u64::MAX);
}

#[test]
fn bounded_policy_gives_up_at_cap() {
    let mut acq = Acquisition::new(RetryPolicy::bounded(250, 3));
    assert_eq!(acq.record(false), AcquireDecision::RetryAfter(250));
    assert_eq!(acq.record(false), AcquireDecision::RetryAfter(250));
    assert_eq!(acq.record(false), AcquireDecision::GiveUp);
}

#[test]
fn bounded_policy_with_zero_cap_gives_up_at_first_failure() {
    let mut acq = Acquisition::new(RetryPolicy::bounded(10, 0));
    assert_eq!(acq.record(false), AcquireDecision::GiveUp);
}

#[test]
fn success_resets_failures() {
    let mut acq = Acquisition::new(RetryPolicy::bounded(10, 2));
    assert_eq!(acq.record(false), AcquireDecision::RetryAfter(10));
    assert_eq!(acq.record(true), AcquireDecision::Acquired);
    assert_eq!(acq.record(false), AcquireDecision::RetryAfter(10));
}
