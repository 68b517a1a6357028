use vstd::prelude::*;

verus! {

/// Delay slept after the first failed connect attempt, in time-units.
pub const INITIAL_BACKOFF: u64 = 1;

/// Largest delay ever slept between attempts, in time-units.
pub const MAX_BACKOFF: u64 = 64;

/// Each further failure multiplies the delay by this factor, up to the cap.
pub const BACKOFF_FACTOR: u64 = 2;

/// Retries allowed after the first failed attempt: six attempts in all.
pub const MAX_RETRIES: u64 = 5;

/// The delay slept after the `i`-th consecutive connect failure (counting
/// from 0): `min(INITIAL_BACKOFF * BACKOFF_FACTOR^i, MAX_BACKOFF)`.
pub open spec fn backoff_delay(i: nat) -> nat
    decreases i,
{
    if i == 0 {
        INITIAL_BACKOFF as nat
    } else if backoff_delay((i - 1) as nat) * (BACKOFF_FACTOR as nat) > MAX_BACKOFF as nat {
        MAX_BACKOFF as nat
    } else {
        backoff_delay((i - 1) as nat) * (BACKOFF_FACTOR as nat)
    }
}

/// The doubling recursion is the announced closed form: the delay after
/// the `i`-th failure is the initial delay grown by the factor `i` times,
/// capped.
pub proof fn lemma_backoff_delay_formula(i: nat)
    ensures
        backoff_delay(i) == if vstd::arithmetic::power2::pow2(i) <= MAX_BACKOFF as nat {
            vstd::arithmetic::power2::pow2(i)
        } else {
            MAX_BACKOFF as nat
        },
    decreases i,
{
    if i == 0 {
        vstd::arithmetic::power2::lemma2_to64();
    } else {
        lemma_backoff_delay_formula((i - 1) as nat);
        vstd::arithmetic::power2::lemma_pow2_unfold(i);
        if vstd::arithmetic::power2::pow2((i - 1) as nat) > MAX_BACKOFF as nat {
            vstd::arithmetic::power2::lemma_pow2_strictly_increases((i - 1) as nat, i);
        }
    }
}

/// Every delay lies between the initial delay and the cap.
pub proof fn lemma_backoff_delay_bounded(i: nat)
    ensures
        INITIAL_BACKOFF <= backoff_delay(i) <= MAX_BACKOFF,
    decreases i,
{
    if i > 0 {
        lemma_backoff_delay_bounded((i - 1) as nat);
    }
}

/// What the acquire protocol decides once a connect attempt has failed.
#[derive(Debug, Clone, Copy, PartialEq, Eq, Structural)]
pub enum RetryDecision {
    /// Sleep this many time-units, then attempt to connect again.
    Retry(u64),
    /// The retry budget is spent: fail permanently, with no further attempt.
    Exhausted,
}

/// Backoff state of one acquire attempt: transient and never shared.
#[derive(Debug, Clone, Copy, PartialEq, Eq, Structural)]
pub struct BackoffState {
    /// How many connect attempts have failed so far.
    pub retries: u64,
    /// The delay to sleep before the next attempt.
    pub delay: u64,
}

impl BackoffState {
    /// The delay always tracks the failure count.
    pub open spec fn wf(&self) -> bool {
        &&& self.retries <= MAX_RETRIES + 1
        &&& self.delay == backoff_delay(self.retries as nat)
    }

    /// Fresh state: no failures yet, first delay ready.
    pub fn new() -> (b: BackoffState)
        ensures
            b.wf(),
            b.retries == 0,
            b.delay == INITIAL_BACKOFF,
    {
        BackoffState { retries: 0, delay: INITIAL_BACKOFF }
    }

    /// Records one failed connect attempt.
    ///
    /// While fewer than `MAX_RETRIES` attempts have failed before this one,
    /// the protocol sleeps the current delay and retries; the failure that
    /// spends the budget (the sixth consecutive one) yields `Exhausted`
    /// with no sleep and no further attempt.
    pub fn on_failure(&mut self) -> (d: RetryDecision)
        requires
            old(self).wf(),
        ensures
            final(self).wf(),
            old(self).retries < MAX_RETRIES ==> {
                &&& d == RetryDecision::Retry(old(self).delay)
                &&& final(self).retries == old(self).retries + 1
            },
            old(self).retries >= MAX_RETRIES ==> {
                &&& d == RetryDecision::Exhausted
                &&& *final(self) == *old(self)
            },
    {
        if self.retries < MAX_RETRIES {
            let slept = self.delay;
            proof {
                lemma_backoff_delay_bounded(self.retries as nat);
            }
            self.retries = self.retries + 1;
            self.delay = if self.delay * BACKOFF_FACTOR > MAX_BACKOFF {
                MAX_BACKOFF
            } else {
                self.delay * BACKOFF_FACTOR
            };
            RetryDecision::Retry(slept)
        } else {
            RetryDecision::Exhausted
        }
    }
}

/// The delays observed over `k` consecutive connect failures: one delay per
/// failure while the budget lasts, and none for the failure that spends it.
pub open spec fn delays_for_failures(k: nat) -> Seq<nat> {
    Seq::new(
        if k <= MAX_RETRIES as nat {
            k
        } else {
            MAX_RETRIES as nat
        },
        |i: int| backoff_delay(i as nat),
    )
}

/// For any run of `k <= 5` consecutive connect failures followed by a
/// success, the delays observed are `1, 2, 4, 8, 16` time-units (the cap of
/// 64 is never reached within the budget), truncated to the first `k`.
pub proof fn lemma_backoff_delay_values(k: nat)
    requires
        k <= 5,
    ensures
        delays_for_failures(k) =~= seq![1nat, 2nat, 4nat, 8nat, 16nat].take(k as int),
{
    reveal_with_fuel(backoff_delay, 6);
    assert(backoff_delay(0) == 1);
    assert(backoff_delay(1) == 2);
    assert(backoff_delay(2) == 4);
    assert(backoff_delay(3) == 8);
    assert(backoff_delay(4) == 16);
}

} // verus!
