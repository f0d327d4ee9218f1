//! Exponential-backoff retrier: the delay starts at one time unit and
//! doubles after every failure; once doubling would push it past 64 units
//! the retrier waits one last time and gives up, handing back the final
//! failure.

use vstd::prelude::*;

verus! {

/// The delay, in time units, before the first retry.
pub const INITIAL_RETRY_DELAY: u64 = 1;

/// The largest delay the retrier ever waits; doubling past it gives up.
pub const MAX_RETRY_DELAY: u64 = 64;

/// Powers of two.
pub open spec fn pow2(n: nat) -> nat
    decreases n,
{
    if n == 0 {
        1
    } else {
        2 * pow2((n - 1) as nat)
    }
}

/// The retry state: the delay the next failure will wait for.
pub struct Backoff {
    pub delay: u64,
}

/// What to do after one failed attempt: wait `wait` time units, then retry
/// once more if `retry` holds, otherwise give up with the failure in hand.
#[derive(Clone, Copy, PartialEq, Eq, Structural, Debug)]
pub struct BackoffStep {
    pub wait: u64,
    pub retry: bool,
}

impl Backoff {
    /// The delay stays within the configured window.
    pub open spec fn wf(&self) -> bool {
        INITIAL_RETRY_DELAY <= self.delay <= MAX_RETRY_DELAY
    }

    pub fn new() -> (r: Backoff)
        ensures
            r.wf(),
            r.delay == INITIAL_RETRY_DELAY,
    {
        Backoff { delay: INITIAL_RETRY_DELAY }
    }

    /// Reacts to one failed attempt: the caller waits the current delay;
    /// the delay doubles; once the doubled delay would exceed the maximum,
    /// the retrier gives up instead.
    pub fn on_failure(&mut self) -> (r: BackoffStep)
        requires
            old(self).wf(),
        ensures
            final(self).wf(),
            r.wait == old(self).delay,
            r.retry <==> 2 * old(self).delay <= MAX_RETRY_DELAY,
            r.retry ==> final(self).delay == 2 * old(self).delay,
            !r.retry ==> *final(self) == *old(self),
    {
        let wait = self.delay;
        if 2 * self.delay <= MAX_RETRY_DELAY {
            self.delay = 2 * self.delay;
            BackoffStep { wait, retry: true }
        } else {
            BackoffStep { wait, retry: false }
        }
    }
}

/// What a whole retry run did: how many attempts were issued, how long was
/// spent waiting in total, and whether the operation eventually succeeded.
#[derive(Clone, Copy, PartialEq, Eq, Structural, Debug)]
pub struct RetryRun {
    pub attempts: u64,
    pub total_wait: u64,
    pub succeeded: bool,
}

/// The run of the retrier from a mid-flight state: `attempt` attempts have
/// already failed, the next wait is `delay`, and `waited` time units have
/// been spent. `outcomes[i]` tells whether attempt `i` would succeed; a
/// missing entry counts as a failure.
pub open spec fn spec_retry_from(outcomes: Seq<bool>, attempt: nat, delay: nat, waited: nat) -> (
    nat,
    nat,
    bool,
)
    decreases 128 - delay,
{
    let success = attempt < outcomes.len() && outcomes[attempt as int];
    if success {
        ((attempt + 1) as nat, waited, true)
    } else if !(1 <= delay <= MAX_RETRY_DELAY) {
        ((attempt + 1) as nat, (waited + delay) as nat, false)
    } else if 2 * delay > MAX_RETRY_DELAY {
        ((attempt + 1) as nat, (waited + delay) as nat, false)
    } else {
        spec_retry_from(outcomes, attempt + 1, 2 * delay, (waited + delay) as nat)
    }
}

/// The run of the retrier from the start, against the given attempt
/// outcomes: (attempts issued, total wait, success).
pub open spec fn spec_retry_run(outcomes: Seq<bool>) -> (nat, nat, bool) {
    spec_retry_from(outcomes, 0, INITIAL_RETRY_DELAY as nat, 0)
}

/// Drives the retrier against a pre-decided sequence of attempt outcomes
/// (`true` = that attempt succeeds; a missing entry is a failure). Callers
/// that perform real work issue the attempts one by one and consult
/// `Backoff::on_failure` instead; this function is the exact model of that
/// loop.
pub fn run_retries(outcomes: &Vec<bool>) -> (r: RetryRun)
    ensures
        (r.attempts as nat, r.total_wait as nat, r.succeeded) == spec_retry_run(outcomes@),
{
    let mut attempt: usize = 0;
    let mut backoff = Backoff::new();
    let mut waited: u64 = 0;
    let mut finished: Option<RetryRun> = None;
    while finished.is_none()
        invariant
            match finished {
                None => {
                    &&& backoff.wf()
                    &&& waited == backoff.delay - 1
                    &&& attempt <= waited + 1
                    &&& spec_retry_run(outcomes@) == spec_retry_from(
                        outcomes@,
                        attempt as nat,
                        backoff.delay as nat,
                        waited as nat,
                    )
                },
                Some(r) => (r.attempts as nat, r.total_wait as nat, r.succeeded)
                    == spec_retry_run(outcomes@),
            },
        decreases (if finished is None { 1int } else { 0int }), 128 - backoff.delay,
    {
        let succeeded = attempt < outcomes.len() && outcomes[attempt];
        if succeeded {
            finished = Some(
                RetryRun { attempts: (attempt + 1) as u64, total_wait: waited, succeeded: true },
            );
        } else {
            let step = backoff.on_failure();
            let new_waited = waited + step.wait;
            if step.retry {
                waited = new_waited;
                attempt = attempt + 1;
            } else {
                finished = Some(
                    RetryRun {
                        attempts: (attempt + 1) as u64,
                        total_wait: new_waited,
                        succeeded: false,
                    },
                );
            }
        }
    }
    finished.unwrap()
}

/// An operation that always fails is attempted exactly seven times, with
/// waits of 1, 2, 4, 8, 16, 32 and 64 time units (127 in total), and the
/// run ends in the final failure.
pub proof fn lemma_retry_exhaustion(outcomes: Seq<bool>)
    requires
        forall|i: int| 0 <= i < outcomes.len() ==> !outcomes[i],
    ensures
        spec_retry_run(outcomes) == (7nat, 127nat, false),
{
    assert(spec_retry_run(outcomes) == spec_retry_from(outcomes, 1, 2, 1));
    assert(spec_retry_from(outcomes, 1, 2, 1) == spec_retry_from(outcomes, 2, 4, 3));
    assert(spec_retry_from(outcomes, 2, 4, 3) == spec_retry_from(outcomes, 3, 8, 7));
    assert(spec_retry_from(outcomes, 3, 8, 7) == spec_retry_from(outcomes, 4, 16, 15));
    assert(spec_retry_from(outcomes, 4, 16, 15) == spec_retry_from(outcomes, 5, 32, 31));
    assert(spec_retry_from(outcomes, 5, 32, 31) == spec_retry_from(outcomes, 6, 64, 63));
    assert(spec_retry_from(outcomes, 6, 64, 63) == (7nat, 127nat, false));
}

/// Helper for `lemma_retry_first_success`: from a state where `attempt`
/// failures are behind us, the next `k - attempt` attempts fail and attempt
/// `k` succeeds.
proof fn lemma_retry_from_success(outcomes: Seq<bool>, attempt: nat, k: nat)
    requires
        attempt <= k <= 6,
        k < outcomes.len(),
        outcomes[k as int],
        forall|i: int| attempt <= i < k ==> !outcomes[i],
    ensures
        spec_retry_from(outcomes, attempt, pow2(attempt), (pow2(attempt) - 1) as nat) == (
            (k + 1) as nat,
            (pow2(k) - 1) as nat,
            true,
        ),
    decreases k - attempt,
{
    lemma_pow2_window();
    lemma_pow2_le(0, attempt);
    lemma_pow2_le(attempt, 6);
    if attempt == k {
    } else {
        assert(pow2(attempt + 1) == 2 * pow2(attempt));
        assert((pow2(attempt) - 1) + pow2(attempt) == pow2(attempt + 1) - 1);
        lemma_pow2_le(attempt + 1, 6);
        lemma_retry_from_success(outcomes, attempt + 1, k);
    }
}

/// The concrete powers of two that the delay window spans.
proof fn lemma_pow2_window()
    ensures
        pow2(0) == 1,
        pow2(6) == 64,
{
    assert(pow2(0) == 1);
    assert(pow2(1) == 2);
    assert(pow2(2) == 4);
    assert(pow2(3) == 8);
    assert(pow2(4) == 16);
    assert(pow2(5) == 32);
    assert(pow2(6) == 64);
}

/// Powers of two are monotonic.
proof fn lemma_pow2_le(a: nat, b: nat)
    requires
        a <= b,
    ensures
        pow2(a) <= pow2(b),
    decreases b,
{
    if a < b {
        lemma_pow2_le(a, (b - 1) as nat);
    }
}

/// An operation that fails `k` times (`k` at most 6) and then succeeds is
/// attempted `k + 1` times, and the total elapsed wait is the sum of the
/// first `k` delays, which is one less than the `k`-th power of two.
pub proof fn lemma_retry_first_success(outcomes: Seq<bool>, k: nat)
    requires
        k <= 6,
        k < outcomes.len(),
        outcomes[k as int],
        forall|i: int| 0 <= i < k ==> !outcomes[i],
    ensures
        spec_retry_run(outcomes) == ((k + 1) as nat, (pow2(k) - 1) as nat, true),
{
    lemma_retry_from_success(outcomes, 0, k);
}

} // verus!
