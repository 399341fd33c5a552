use vstd::prelude::*;

verus! {

/// How an effect is retried: at most `max_attempts` attempts; after a failed
/// attempt the wait starts at `initial_interval_ms` and doubles, never above
/// `max_interval_ms`.
#[derive(PartialEq, Eq, Structural, Clone, Copy, Debug)]
pub struct RetryPolicy {
    pub max_attempts: u32,
    pub initial_interval_ms: u64,
    pub max_interval_ms: u64,
}

/// Where a retried effect stands: the attempts made so far, and the wait that
/// follows the next failure.
#[derive(PartialEq, Eq, Structural, Clone, Copy, Debug)]
pub struct RetryState {
    pub attempts: u32,
    pub interval_ms: u64,
}

/// What to do after an attempt.
#[derive(PartialEq, Eq, Structural, Clone, Copy, Debug)]
pub enum RetryDecision {
    /// The attempt succeeded: the effect is done.
    Succeeded { attempts: u32 },
    /// The attempt failed: wait, then attempt again from `next`.
    RetryAfter { wait_ms: u64, next: RetryState },
    /// The attempt failed and no attempt is left: the effect has failed for good.
    Exhausted { attempts: u32 },
}

pub open spec fn min_int(a: int, b: int) -> int {
    if a <= b {
        a
    } else {
        b
    }
}

/// The wait after the failure of attempt `k + 1`: the initial interval,
/// doubled `k` times, capped at the maximum after every step.
pub open spec fn backoff(p: RetryPolicy, k: nat) -> nat
    decreases k,
{
    if k == 0 {
        min_int(p.initial_interval_ms as int, p.max_interval_ms as int) as nat
    } else {
        min_int(2 * (backoff(p, (k - 1) as nat) as int), p.max_interval_ms as int) as nat
    }
}

/// The waits after the failures of attempts `from + 1` to `from + count`.
pub open spec fn backoff_total(p: RetryPolicy, from: nat, count: nat) -> nat
    decreases count,
{
    if count == 0 {
        0
    } else {
        backoff(p, from) + backoff_total(p, from + 1, (count - 1) as nat)
    }
}

pub open spec fn next_interval(p: RetryPolicy, i: u64) -> u64 {
    min_int(2 * i, p.max_interval_ms as int) as u64
}

pub open spec fn decide(p: RetryPolicy, s: RetryState, succeeded: bool) -> RetryDecision {
    let n = (s.attempts + 1) as u32;
    if succeeded {
        RetryDecision::Succeeded { attempts: n }
    } else if n >= p.max_attempts {
        RetryDecision::Exhausted { attempts: n }
    } else {
        RetryDecision::RetryAfter {
            wait_ms: s.interval_ms,
            next: RetryState { attempts: n, interval_ms: next_interval(p, s.interval_ms) },
        }
    }
}

impl RetryState {
    /// The state before the first attempt.
    pub fn start(p: &RetryPolicy) -> (r: RetryState)
        ensures
            r.attempts == 0,
            r.interval_ms == backoff(*p, 0),
    {
        let i = if p.initial_interval_ms <= p.max_interval_ms {
            p.initial_interval_ms
        } else {
            p.max_interval_ms
        };
        RetryState { attempts: 0, interval_ms: i }
    }

    /// Whether an attempt may still be made.
    pub fn may_attempt(&self, p: &RetryPolicy) -> (r: bool)
        ensures
            r == (self.attempts < p.max_attempts),
    {
        self.attempts < p.max_attempts
    }

    /// The decision after an attempt that succeeded or failed.
    pub fn after_attempt(&self, p: &RetryPolicy, succeeded: bool) -> (r: RetryDecision)
        requires
            self.attempts < p.max_attempts,
        ensures
            r == decide(*p, *self, succeeded),
    {
        let n = self.attempts + 1;
        if succeeded {
            RetryDecision::Succeeded { attempts: n }
        } else if n >= p.max_attempts {
            RetryDecision::Exhausted { attempts: n }
        } else {
            let next = if self.interval_ms > p.max_interval_ms / 2 {
                p.max_interval_ms
            } else {
                let d = 2 * self.interval_ms;
                if d <= p.max_interval_ms {
                    d
                } else {
                    p.max_interval_ms
                }
            };
            RetryDecision::RetryAfter {
                wait_ms: self.interval_ms,
                next: RetryState { attempts: n, interval_ms: next },
            }
        }
    }
}

/// How a run of attempts ends, given whether each attempt succeeds: whether
/// it succeeded, the attempts made and the total wait; nothing where the
/// results run out first.
pub open spec fn run(p: RetryPolicy, s: RetryState, results: Seq<bool>) -> Option<(bool, nat, nat)>
    decreases results.len(),
{
    if s.attempts >= p.max_attempts {
        Some((false, s.attempts as nat, 0))
    } else if results.len() == 0 {
        None
    } else {
        match decide(p, s, results[0]) {
            RetryDecision::Succeeded { attempts } => Some((true, attempts as nat, 0)),
            RetryDecision::Exhausted { attempts } => Some((false, attempts as nat, 0)),
            RetryDecision::RetryAfter { wait_ms, next } => match run(p, next, results.drop_first()) {
                Some((ok, n, w)) => Some((ok, n, (w + wait_ms) as nat)),
                None => None,
            },
        }
    }
}

pub open spec fn start_state(p: RetryPolicy) -> RetryState {
    RetryState { attempts: 0, interval_ms: backoff(p, 0) as u64 }
}

proof fn lemma_backoff_bounded(p: RetryPolicy, k: nat)
    ensures
        backoff(p, k) <= p.max_interval_ms,
    decreases k,
{
    if k > 0 {
        lemma_backoff_bounded(p, (k - 1) as nat);
    }
}

proof fn lemma_run_from(p: RetryPolicy, s: RetryState, results: Seq<bool>, fails: nat)
    requires
        s.interval_ms == backoff(p, s.attempts as nat),
        s.attempts + fails < p.max_attempts,
        results.len() > fails,
        forall|i: int| 0 <= i < fails ==> !results[i],
        results[fails as int],
    ensures
        run(p, s, results) == Some(
            (true, (s.attempts + fails + 1) as nat, backoff_total(p, s.attempts as nat, fails)),
        ),
    decreases fails,
{
    if fails > 0 {
        let n = (s.attempts + 1) as u32;
        lemma_backoff_bounded(p, s.attempts as nat);
        let next = RetryState { attempts: n, interval_ms: next_interval(p, s.interval_ms) };
        assert(next.interval_ms == backoff(p, n as nat));
        let rest = results.drop_first();
        assert forall|i: int| 0 <= i < fails - 1 implies !rest[i] by {
            assert(rest[i] == results[i + 1]);
        }
        lemma_run_from(p, next, rest, (fails - 1) as nat);
    }
}

proof fn lemma_run_failing_from(p: RetryPolicy, s: RetryState, results: Seq<bool>)
    requires
        s.interval_ms == backoff(p, s.attempts as nat),
        s.attempts < p.max_attempts,
        results.len() >= p.max_attempts - s.attempts,
        forall|i: int| 0 <= i < results.len() ==> !results[i],
    ensures
        run(p, s, results) == Some(
            (
                false,
                p.max_attempts as nat,
                backoff_total(p, s.attempts as nat, (p.max_attempts - s.attempts - 1) as nat),
            ),
        ),
    decreases p.max_attempts - s.attempts,
{
    let n = (s.attempts + 1) as u32;
    if n < p.max_attempts {
        lemma_backoff_bounded(p, s.attempts as nat);
        let next = RetryState { attempts: n, interval_ms: next_interval(p, s.interval_ms) };
        assert(next.interval_ms == backoff(p, n as nat));
        let rest = results.drop_first();
        assert forall|i: int| 0 <= i < rest.len() implies !rest[i] by {
            assert(rest[i] == results[i + 1]);
        }
        lemma_run_failing_from(p, next, rest);
    }
}

/// An effect that fails `fails` times and then succeeds, under a policy that
/// allows more than `fails` attempts, succeeds at attempt `fails + 1`, having
/// waited the first `fails` backoff intervals.
pub proof fn lemma_retry_succeeds_after_failures(p: RetryPolicy, results: Seq<bool>, fails: nat)
    requires
        fails < p.max_attempts,
        results.len() > fails,
        forall|i: int| 0 <= i < fails ==> !results[i],
        results[fails as int],
    ensures
        run(p, start_state(p), results) == Some((true, fails + 1, backoff_total(p, 0, fails))),
{
    lemma_run_from(p, start_state(p), results, fails);
}

/// An effect that always fails is given up after exactly `max_attempts`
/// attempts.
pub proof fn lemma_retry_gives_up_after_max_attempts(p: RetryPolicy, results: Seq<bool>)
    requires
        results.len() >= p.max_attempts,
        forall|i: int| 0 <= i < results.len() ==> !results[i],
    ensures
        run(p, start_state(p), results) matches Some((ok, n, _)) && !ok && n == p.max_attempts,
{
    if p.max_attempts > 0 {
        lemma_run_failing_from(p, start_state(p), results);
    }
}

} // verus!
