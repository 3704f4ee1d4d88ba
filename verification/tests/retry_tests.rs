use code_reviewer::errors::{ConversationError, ProviderError, TransientKind};
use code_reviewer::retry::{RetryDecision, RetryPolicy};

fn policy() -> RetryPolicy {
    RetryPolicy { max_attempts: 3, base_delay_ms: 100, max_delay_ms: 1000 }
}

#[test]
fn fatal_failure_is_never_retried() {
    let d = policy().decide(1, &ProviderError::Fatal);
    assert!(matches!(d, RetryDecision::GiveUp(ConversationError::ProviderFailed)));
}

#[test]
fn transient_failures_retry_with_doubling_delay() {
    let p = policy();
    let e = ProviderError::Transient(TransientKind::Timeout);
    assert!(matches!(p.decide(1, &e), RetryDecision::RetryAfter(100)));
    assert!(matches!(p.decide(2, &e), RetryDecision::RetryAfter(200)));
    assert!(matches!(p.decide(3, &e), RetryDecision::GiveUp(ConversationError::ProviderExhausted)));
}

#[test]
fn backoff_delay_is_capped() {
    let p = RetryPolicy { max_attempts: 6, base_delay_ms: 100, max_delay_ms: 250 };
    assert_eq!(p.backoff_delay(0), 100);
    assert_eq!(p.backoff_delay(1), 200);
    assert_eq!(p.backoff_delay(2), 250);
    assert_eq!(p.backoff_delay(3), 250);
}

#[test]
fn base_above_cap_starts_capped() {
    let p = RetryPolicy { max_attempts: 3, base_delay_ms: 500, max_delay_ms: 200 };
    assert_eq!(p.backoff_delay(0), 200);
    assert_eq!(p.backoff_delay(1), 200);
}

#[test]
fn two_transient_failures_then_success_stays_within_cap() {
    // What each provider attempt would do, as the driver sees it.
    let outcomes = [
        Err(ProviderError::Transient(TransientKind::RateLimit)),
        Err(ProviderError::Transient(TransientKind::Transport)),
        Ok(()),
    ];
    let p = policy();
    let mut attempts: u32 = 0;
    let mut result: Option<Result<(), ConversationError>> = None;
    for outcome in outcomes.iter() {
        attempts += 1;
        match outcome {
            Ok(()) => {
                result = Some(Ok(()));
                break;
            }
            Err(e) => match p.decide(attempts, e) {
                RetryDecision::RetryAfter(_) => continue,
                RetryDecision::GiveUp(err) => {
                    result = Some(Err(err));
                    break;
                }
            },
        }
    }
    assert_eq!(attempts, 3);
    assert!(attempts <= p.max_attempts);
    assert!(matches!(result, Some(Ok(()))));
}

#[test]
fn transient_failures_exhaust_the_budget() {
    let p = RetryPolicy { max_attempts: 2, base_delay_ms: 50, max_delay_ms: 400 };
    let e = ProviderError::Transient(TransientKind::Timeout);
    assert!(matches!(p.decide(1, &e), RetryDecision::RetryAfter(50)));
    assert!(matches!(p.decide(2, &e), RetryDecision::GiveUp(ConversationError::ProviderExhausted)));
}
