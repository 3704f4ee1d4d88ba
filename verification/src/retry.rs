//! Bounded retry with exponential backoff.
//!
//! A transient provider failure is retried until the attempt budget runs
//! out, with a delay that starts at a base, doubles per retry and is
//! capped; a fatal failure is never retried. The decisions are pure: the
//! surrounding driver performs the calls and the waiting.

use vstd::prelude::*;

use crate::errors::{ConversationError, ProviderError};

verus! {

/// 2 to the power `k`.
pub open spec fn pow2(k: nat) -> nat
    decreases k,
{
    if k == 0 {
        1
    } else {
        2 * pow2((k - 1) as nat)
    }
}

/// The delay before retry number `retries_done + 1`: the base delay,
/// doubled per retry already made, capped.
pub open spec fn spec_backoff(base: u64, retries_done: nat, cap: u64) -> int {
    vstd::math::min(base * pow2(retries_done), cap as int)
}

/// What one provider attempt did.
#[derive(Clone, Copy, Debug, PartialEq, Eq, Structural)]
pub enum AttemptOutcome {
    Success,
    Failure(ProviderError),
}

/// What the driver must do after a failed attempt.
#[derive(Clone, Copy, Debug, PartialEq, Eq, Structural)]
pub enum RetryDecision {
    /// Wait this many milliseconds, then attempt again.
    RetryAfter(u64),
    /// Stop: the failure escalates as the carried error.
    GiveUp(ConversationError),
}

/// Retry policy: how many attempts in all may be made, and the backoff
/// delay parameters in milliseconds.
#[derive(Clone, Copy, Debug, PartialEq, Eq, Structural)]
pub struct RetryPolicy {
    pub max_attempts: u32,
    pub base_delay_ms: u64,
    pub max_delay_ms: u64,
}

/// The decision owed after a failed attempt: a fatal failure escalates at
/// once; a transient failure is retried while attempts remain, and
/// escalates as exhaustion once they do not.
pub open spec fn spec_decide(p: RetryPolicy, attempts_made: u32, e: ProviderError) -> RetryDecision {
    match e {
        ProviderError::Fatal => RetryDecision::GiveUp(ConversationError::ProviderFailed),
        ProviderError::Transient(_) => if attempts_made < p.max_attempts {
            RetryDecision::RetryAfter(
                spec_backoff(p.base_delay_ms, (attempts_made - 1) as nat, p.max_delay_ms) as u64,
            )
        } else {
            RetryDecision::GiveUp(ConversationError::ProviderExhausted)
        },
    }
}

/// Result of driving attempts against a policy allowing `max_attempts`
/// attempts, where `outcomes[k]` is what attempt `k + 1` would do: success
/// of some attempt in budget succeeds, a fatal failure escalates, and
/// transient failures burn the budget down to exhaustion.
pub open spec fn retry_verdict(outcomes: Seq<AttemptOutcome>, max_attempts: int) -> Result<
    (),
    ConversationError,
>
    decreases outcomes.len(),
{
    if max_attempts <= 0 || outcomes.len() == 0 {
        Err(ConversationError::ProviderExhausted)
    } else {
        match outcomes[0] {
            AttemptOutcome::Success => Ok(()),
            AttemptOutcome::Failure(ProviderError::Fatal) => Err(
                ConversationError::ProviderFailed,
            ),
            AttemptOutcome::Failure(ProviderError::Transient(_)) => if max_attempts == 1 {
                Err(ConversationError::ProviderExhausted)
            } else {
                retry_verdict(outcomes.drop_first(), max_attempts - 1)
            },
        }
    }
}

/// Number of attempts actually made when driving attempts against the
/// policy: retries stop at success, at a fatal failure, and at exhaustion.
pub open spec fn attempts_used(outcomes: Seq<AttemptOutcome>, max_attempts: int) -> int
    decreases outcomes.len(),
{
    if max_attempts <= 0 || outcomes.len() == 0 {
        0
    } else {
        match outcomes[0] {
            AttemptOutcome::Success => 1,
            AttemptOutcome::Failure(ProviderError::Fatal) => 1,
            AttemptOutcome::Failure(ProviderError::Transient(_)) => 1 + attempts_used(
                outcomes.drop_first(),
                max_attempts - 1,
            ),
        }
    }
}

impl RetryPolicy {
    /// Decides what to do after attempt number `attempts_made` failed with
    /// `e`: retry after a backoff delay, or give up.
    pub fn decide(&self, attempts_made: u32, e: &ProviderError) -> (d: RetryDecision)
        requires
            attempts_made >= 1,
        ensures
            d == spec_decide(*self, attempts_made, *e),
    {
        match e {
            ProviderError::Fatal => RetryDecision::GiveUp(ConversationError::ProviderFailed),
            ProviderError::Transient(_) => {
                if attempts_made < self.max_attempts {
                    RetryDecision::RetryAfter(self.backoff_delay(attempts_made - 1))
                } else {
                    RetryDecision::GiveUp(ConversationError::ProviderExhausted)
                }
            },
        }
    }

    /// The delay before the next attempt, after `retries_done` retries:
    /// the base delay doubled per retry, capped at the configured maximum.
    pub fn backoff_delay(&self, retries_done: u32) -> (d: u64)
        ensures
            d as int == spec_backoff(self.base_delay_ms, retries_done as nat, self.max_delay_ms),
    {
        let cap = self.max_delay_ms;
        let mut d: u64 = if self.base_delay_ms <= cap {
            self.base_delay_ms
        } else {
            cap
        };
        let mut i: u32 = 0;
        assert(pow2(0) == 1);
        while i < retries_done
            invariant
            i <= retries_done,
            cap == self.max_delay_ms,
            d as int == spec_backoff(self.base_delay_ms, i as nat, cap),
            decreases retries_done - i,
        {
            proof {
                assert(pow2((i + 1) as nat) == 2 * pow2(i as nat));
                assert(pow2(i as nat) >= 1) by {
                    lemma_pow2_pos(i as nat);
                }
            }
            if d <= cap / 2 {
                proof {
                    if (d as int) < self.base_delay_ms * pow2(i as nat) {
                        assert(d == cap);
                        assert(cap <= cap / 2 ==> cap == 0);
                    }
                    assert(d as int == self.base_delay_ms * pow2(i as nat) || d == 0);
                    assert(self.base_delay_ms * pow2((i + 1) as nat) == 2 * (self.base_delay_ms
                        * pow2(i as nat))) by (nonlinear_arith)
                        requires
                            pow2((i + 1) as nat) == 2 * pow2(i as nat),
                    ;
                }
                d = d * 2;
            } else {
                proof {
                    assert(2 * (d as int) > cap);
                    if (d as int) == self.base_delay_ms * pow2(i as nat) {
                        assert(self.base_delay_ms * pow2((i + 1) as nat) == 2 * (self.base_delay_ms
                            * pow2(i as nat))) by (nonlinear_arith)
                            requires
                                pow2((i + 1) as nat) == 2 * pow2(i as nat),
                        ;
                    } else {
                        assert(d == cap);
                        assert(self.base_delay_ms * pow2(i as nat) >= cap);
                        assert(self.base_delay_ms * pow2((i + 1) as nat) >= self.base_delay_ms
                            * pow2(i as nat)) by (nonlinear_arith)
                            requires
                                pow2((i + 1) as nat) == 2 * pow2(i as nat),
                                pow2(i as nat) >= 1,
                        ;
                    }
                }
                d = cap;
            }
            i = i + 1;
        }
        d
    }
}

/// 2 to any power is positive.
pub proof fn lemma_pow2_pos(k: nat)
    ensures
        pow2(k) >= 1,
    decreases k,
{
    if k > 0 {
        lemma_pow2_pos((k - 1) as nat);
    }
}

/// The retry budget is never exceeded: however the attempts turn out, no
/// more than `max_attempts` attempts are made, and no more than there are
/// outcomes to observe.
pub proof fn lemma_retry_bounded(outcomes: Seq<AttemptOutcome>, max_attempts: int)
    ensures
        attempts_used(outcomes, max_attempts) <= max_attempts || max_attempts < 0,
        attempts_used(outcomes, max_attempts) <= outcomes.len(),
        0 <= attempts_used(outcomes, max_attempts),
    decreases outcomes.len(),
{
    if max_attempts > 0 && outcomes.len() > 0 {
        lemma_retry_bounded(outcomes.drop_first(), max_attempts - 1);
    }
}

/// A fatal failure is never retried: it escalates after exactly one
/// attempt, whatever the budget.
pub proof fn lemma_fatal_never_retried(outcomes: Seq<AttemptOutcome>, max_attempts: int)
    requires
        max_attempts >= 1,
        outcomes.len() >= 1,
        outcomes[0] == AttemptOutcome::Failure(ProviderError::Fatal),
    ensures
        retry_verdict(outcomes, max_attempts) == Err::<(), ConversationError>(
            ConversationError::ProviderFailed,
        ),
        attempts_used(outcomes, max_attempts) == 1,
{
}

/// A provider that fails transiently twice and then succeeds still
/// produces a successful call, provided the budget allows a third attempt;
/// exactly three attempts are made.
pub proof fn lemma_two_transient_then_success(
    outcomes: Seq<AttemptOutcome>,
    max_attempts: int,
    k1: crate::errors::TransientKind,
    k2: crate::errors::TransientKind,
)
    requires
        max_attempts >= 3,
        outcomes.len() >= 3,
        outcomes[0] == AttemptOutcome::Failure(ProviderError::Transient(k1)),
        outcomes[1] == AttemptOutcome::Failure(ProviderError::Transient(k2)),
        outcomes[2] == AttemptOutcome::Success,
    ensures
        retry_verdict(outcomes, max_attempts) == Ok::<(), ConversationError>(()),
        attempts_used(outcomes, max_attempts) == 3,
{
    let rest1 = outcomes.drop_first();
    let rest2 = rest1.drop_first();
    assert(rest1[0] == outcomes[1]);
    assert(rest2[0] == outcomes[2]);
    assert(retry_verdict(rest2, max_attempts - 2) == Ok::<(), ConversationError>(()));
    assert(attempts_used(rest2, max_attempts - 2) == 1);
    assert(retry_verdict(rest1, max_attempts - 1) == retry_verdict(rest2, max_attempts - 2));
    assert(attempts_used(rest1, max_attempts - 1) == 1 + attempts_used(rest2, max_attempts - 2));
    assert(retry_verdict(outcomes, max_attempts) == retry_verdict(rest1, max_attempts - 1));
    assert(attempts_used(outcomes, max_attempts) == 1 + attempts_used(rest1, max_attempts - 1));
}

} // verus!
