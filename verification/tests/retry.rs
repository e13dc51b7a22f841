use framelink::retry::{RetryBudget, RetryDecision, RETRY_PAUSE_MS};

#[test]
fn a_budget_lasts_for_its_retries() {
    let mut budget = RetryBudget::new(3);
    assert_eq!(budget, RetryBudget { attempts: 0, max_retries: 3 });
    for spent in 1..=3 {
        assert_eq!(budget.on_failure(), RetryDecision::RetryAfter { wait_ms: 1_000 });
        assert_eq!(budget.attempts, spent);
    }
    assert_eq!(budget.on_failure(), RetryDecision::GiveUp);
    assert_eq!(budget.on_failure(), RetryDecision::GiveUp);
    assert_eq!(budget.attempts, 3);
    assert_eq!(budget.max_retries, 3);
    assert_eq!(RETRY_PAUSE_MS, 1_000);
}

#[test]
fn a_budget_of_nothing_gives_up_at_once() {
    let mut budget = RetryBudget::new(0);
    assert_eq!(budget.on_failure(), RetryDecision::GiveUp);
    assert_eq!(budget.attempts, 0);
}

#[test]
fn a_full_budget_does_not_overflow() {
    let mut budget = RetryBudget { attempts: usize::MAX, max_retries: usize::MAX };
    assert_eq!(budget.on_failure(), RetryDecision::GiveUp);
    assert_eq!(budget.attempts, usize::MAX);
}
