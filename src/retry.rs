use vstd::prelude::*;

verus! {

/// How a resource acquisition is retried: a fixed pause between attempts and,
/// optionally, a cap on the number of failed attempts.
#[derive(Clone, Copy, Debug)]
pub struct RetryPolicy {
    pub interval_ms: u64,
    pub max_failures: Option<u64>,
}

/// What the acquiring loop does after one attempt.
#[derive(Clone, Copy, Debug, PartialEq, Eq, Structural)]
pub enum AcquireDecision {
    /// The resource is held: stop retrying.
    Acquired,
    /// Wait this many milliseconds, then try again.
    RetryAfter(u64),
    /// The cap on failed attempts is reached.
    GiveUp,
}

/// Progress of one acquisition: the policy and the failed attempts so far.
#[derive(Clone, Copy, Debug)]
pub struct Acquisition {
    pub policy: RetryPolicy,
    pub failures: u64,
}

/// Adds one, staying at the largest value once it is reached.
pub open spec fn sat_inc(n: u64) -> u64 {
    if n < u64::MAX {
        (n + 1) as u64
    } else {
        n
    }
}

/// The decision after a failed attempt that brought the count to `failures`.
pub open spec fn decide_after_failure(policy: RetryPolicy, failures: u64) -> AcquireDecision {
    match policy.max_failures {
        Some(m) => if failures >= m {
            AcquireDecision::GiveUp
        } else {
            AcquireDecision::RetryAfter(policy.interval_ms)
        },
        None => AcquireDecision::RetryAfter(policy.interval_ms),
    }
}

/// The acquisition after one attempt with the given outcome.
pub open spec fn acquisition_after(a: Acquisition, succeeded: bool) -> Acquisition {
    if succeeded {
        Acquisition { policy: a.policy, failures: 0 }
    } else {
        Acquisition { policy: a.policy, failures: sat_inc(a.failures) }
    }
}

/// The decision taken after one attempt with the given outcome.
pub open spec fn decision_after(a: Acquisition, succeeded: bool) -> AcquireDecision {
    if succeeded {
        AcquireDecision::Acquired
    } else {
        decide_after_failure(a.policy, sat_inc(a.failures))
    }
}

/// The decisions taken for a sequence of attempt outcomes, in order.
pub open spec fn decisions(a: Acquisition, outcomes: Seq<bool>) -> Seq<AcquireDecision>
    decreases outcomes.len(),
{
    if outcomes.len() == 0 {
        Seq::empty()
    } else {
        seq![decision_after(a, outcomes[0])] + decisions(
            acquisition_after(a, outcomes[0]),
            outcomes.drop_first(),
        )
    }
}

/// `n` failed attempts followed by one that succeeds.
pub open spec fn fails_then_succeeds(n: nat) -> Seq<bool> {
    Seq::new(n, |i: int| false).push(true)
}

impl RetryPolicy {
    /// Retries forever, pausing `interval_ms` between attempts.
    pub fn fixed(interval_ms: u64) -> (r: RetryPolicy)
        ensures
            r.interval_ms == interval_ms,
            r.max_failures is None,
    {
        RetryPolicy { interval_ms, max_failures: None }
    }

    /// Pauses `interval_ms` between attempts and gives up after `max_failures` failures.
    pub fn bounded(interval_ms: u64, max_failures: u64) -> (r: RetryPolicy)
        ensures
            r.interval_ms == interval_ms,
            r.max_failures == Some(max_failures),
    {
        RetryPolicy { interval_ms, max_failures: Some(max_failures) }
    }
}

impl Acquisition {
    /// Starts an acquisition with no failed attempt yet.
    pub fn new(policy: RetryPolicy) -> (r: Acquisition)
        ensures
            r.policy == policy,
            r.failures == 0,
    {
        Acquisition { policy, failures: 0 }
    }

    /// Records the outcome of one attempt and says what to do next.
    pub fn record(&mut self, succeeded: bool) -> (r: AcquireDecision)
        ensures
            *final(self) == acquisition_after(*old(self), succeeded),
            r == decision_after(*old(self), succeeded),
    {
        if succeeded {
            self.failures = 0;
            AcquireDecision::Acquired
        } else {
            if self.failures < u64::MAX {
                self.failures = self.failures + 1;
            }
            match self.policy.max_failures {
                Some(m) => if self.failures >= m {
                    AcquireDecision::GiveUp
                } else {
                    AcquireDecision::RetryAfter(self.policy.interval_ms)
                },
                None => AcquireDecision::RetryAfter(self.policy.interval_ms),
            }
        }
    }
}

/// Under a policy without a cap, an acquisition never gives up: every failed
/// attempt is followed by a pause of the fixed interval.
pub proof fn lemma_unbounded_never_gives_up(a: Acquisition, succeeded: bool)
    requires
        a.policy.max_failures is None,
    ensures
        succeeded ==> decision_after(a, succeeded) == AcquireDecision::Acquired,
        !succeeded ==> decision_after(a, succeeded) == AcquireDecision::RetryAfter(
            a.policy.interval_ms,
        ),
        acquisition_after(a, succeeded).policy == a.policy,
{
}

/// Under a policy without a cap, `n` failures followed by a success give `n`
/// pauses of exactly the fixed interval and then the acquired resource, on the
/// attempt after the `n`-th: the loop never stops before it succeeds.
pub proof fn lemma_retry_until_success(a: Acquisition, n: nat)
    requires
        a.policy.max_failures is None,
    ensures
        decisions(a, fails_then_succeeds(n)).len() == n + 1,
        forall|i: int|
            0 <= i < n ==> #[trigger] decisions(a, fails_then_succeeds(n))[i]
                == AcquireDecision::RetryAfter(a.policy.interval_ms),
        decisions(a, fails_then_succeeds(n))[n as int] == AcquireDecision::Acquired,
    decreases n,
{
    let outcomes = fails_then_succeeds(n);
    if n == 0 {
        assert(outcomes =~= seq![true]);
        assert(outcomes.drop_first() =~= Seq::<bool>::empty());
        let after = acquisition_after(a, true);
        assert(decisions(after, Seq::<bool>::empty()) =~= Seq::<AcquireDecision>::empty());
        assert(decisions(a, outcomes) =~= seq![AcquireDecision::Acquired]);
    } else {
        let next = acquisition_after(a, false);
        lemma_retry_until_success(next, (n - 1) as nat);
        assert(outcomes.drop_first() =~= fails_then_succeeds((n - 1) as nat));
        assert(outcomes[0] == false);
        let rest = decisions(next, fails_then_succeeds((n - 1) as nat));
        assert(decisions(a, outcomes) == seq![AcquireDecision::RetryAfter(a.policy.interval_ms)]
            + rest);
        assert(decisions(a, outcomes)[n as int] == rest[n - 1]);
        assert forall|i: int| 0 <= i < n implies #[trigger] decisions(a, outcomes)[i]
            == AcquireDecision::RetryAfter(a.policy.interval_ms) by {
            if i > 0 {
                assert(decisions(a, outcomes)[i] == rest[i - 1]);
            }
        }
    }
}

} // verus!
