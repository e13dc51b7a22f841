use framelink::reconnect::{
    backoff_delay, LinkAction, LinkEvent, LinkState, Reconnector, RetryPolicy,
};

#[test]
fn default_policy() {
    let policy = RetryPolicy::default();
    assert_eq!(policy.initial_delay_ms, 1_000);
    assert_eq!(policy.max_retries, 5);
    assert!(policy.is_valid());
}

#[test]
fn backoff_monotonicity_and_cap() {
    let delays: Vec<Option<u64>> = (1..=6).map(|retries| backoff_delay(1_000, retries, 5)).collect();
    assert_eq!(
        delays,
        vec![Some(2_000), Some(4_000), Some(8_000), Some(16_000), Some(32_000), Some(32_000)]
    );
    assert_eq!(backoff_delay(1_000, 0, 5), Some(1_000));
    assert_eq!(backoff_delay(1_000, u32::MAX, 5), Some(32_000));
    for retries in 0..5 {
        assert!(backoff_delay(1_000, retries, 5) < backoff_delay(1_000, retries + 1, 5));
    }
}

#[test]
fn backoff_of_other_policies() {
    assert_eq!(backoff_delay(3, 4, 10), Some(48));
    assert_eq!(backoff_delay(7, 3, 0), Some(7));
    assert_eq!(backoff_delay(0, 40, 100), Some(0));
    assert_eq!(backoff_delay(1, 63, 63), Some(1 << 63));
    assert_eq!(backoff_delay(u64::MAX, 0, 9), Some(u64::MAX));
}

#[test]
fn backoff_that_does_not_fit_is_refused() {
    assert_eq!(backoff_delay(1, 64, 64), None);
    assert_eq!(backoff_delay(u64::MAX, 1, 1), None);
    assert_eq!(backoff_delay(3, 63, 100), None);
    assert!(!RetryPolicy { initial_delay_ms: 1, max_retries: 64 }.is_valid());
    assert!(RetryPolicy { initial_delay_ms: 1, max_retries: 63 }.is_valid());
    assert!(Reconnector::new(RetryPolicy { initial_delay_ms: 2, max_retries: 63 }).is_none());
}

#[test]
fn first_attempt_that_succeeds() {
    let mut link = Reconnector::new(RetryPolicy::default()).unwrap();
    assert_eq!(link.state(), LinkState::Disconnected);
    assert_eq!(link.retry_count(), 0);
    assert_eq!(link.policy(), RetryPolicy::default());
    assert_eq!(link.current_delay(), 1_000);
    assert_eq!(link.step(LinkEvent::Start), LinkAction::Dial);
    assert_eq!(link.state(), LinkState::Connecting { attempts_left: 1 });
    assert_eq!(link.step(LinkEvent::ConnectSucceeded), LinkAction::RunSession);
    assert_eq!(link.state(), LinkState::Connected);
    assert_eq!(link.step(LinkEvent::SessionEnded), LinkAction::Restart);
    assert_eq!(link.state(), LinkState::Disconnected);
    assert_eq!(link.retry_count(), 0);
}

#[test]
fn failed_runs_double_the_wait_up_to_the_cap() {
    let mut link = Reconnector::new(RetryPolicy::default()).unwrap();
    let mut backoffs = Vec::new();
    for run in 0..7u64 {
        let retries = run.min(5);
        let wait = 1_000 << retries;
        assert_eq!(link.step(LinkEvent::Start), LinkAction::Dial);
        assert_eq!(link.state(), LinkState::Connecting { attempts_left: retries + 1 });
        for left in (1..=retries).rev() {
            assert_eq!(
                link.step(LinkEvent::ConnectFailed),
                LinkAction::WaitThenDial { wait_ms: wait }
            );
            assert_eq!(link.state(), LinkState::Connecting { attempts_left: left });
        }
        match link.step(LinkEvent::ConnectFailed) {
            LinkAction::BackOff { wait_ms, backoff_ms } => {
                assert_eq!(wait_ms, wait);
                backoffs.push(backoff_ms);
            }
            other => panic!("expected a back-off, got {:?}", other),
        }
        assert_eq!(link.state(), LinkState::Disconnected);
        assert_eq!(u64::from(link.retry_count()), (run + 1).min(5));
    }
    assert_eq!(backoffs, vec![2_000, 4_000, 8_000, 16_000, 32_000, 32_000, 32_000]);
}

#[test]
fn a_connection_clears_the_count() {
    let mut link = Reconnector::new(RetryPolicy::default()).unwrap();
    link.step(LinkEvent::Start);
    link.step(LinkEvent::ConnectFailed);
    assert_eq!(link.retry_count(), 1);
    assert_eq!(link.step(LinkEvent::Start), LinkAction::Dial);
    assert_eq!(
        link.step(LinkEvent::ConnectFailed),
        LinkAction::WaitThenDial { wait_ms: 2_000 }
    );
    assert_eq!(link.step(LinkEvent::ConnectSucceeded), LinkAction::RunSession);
    assert_eq!(link.retry_count(), 0);
    assert_eq!(link.state(), LinkState::Connected);
    assert_eq!(link.step(LinkEvent::SessionEnded), LinkAction::Restart);
    assert_eq!(link.step(LinkEvent::Start), LinkAction::Dial);
    assert_eq!(link.state(), LinkState::Connecting { attempts_left: 1 });
}

#[test]
fn events_out_of_place_are_ignored() {
    let mut link = Reconnector::new(RetryPolicy::default()).unwrap();
    for event in [LinkEvent::ConnectSucceeded, LinkEvent::ConnectFailed, LinkEvent::SessionEnded] {
        assert_eq!(link.step(event), LinkAction::Ignore);
        assert_eq!(link.state(), LinkState::Disconnected);
    }
    link.step(LinkEvent::Start);
    for event in [LinkEvent::Start, LinkEvent::SessionEnded] {
        assert_eq!(link.step(event), LinkAction::Ignore);
        assert_eq!(link.state(), LinkState::Connecting { attempts_left: 1 });
    }
    link.step(LinkEvent::ConnectSucceeded);
    for event in [LinkEvent::Start, LinkEvent::ConnectSucceeded, LinkEvent::ConnectFailed] {
        assert_eq!(link.step(event), LinkAction::Ignore);
        assert_eq!(link.state(), LinkState::Connected);
    }
}

#[test]
fn zero_initial_delay_never_grows() {
    let mut link = Reconnector::new(RetryPolicy { initial_delay_ms: 0, max_retries: 200 }).unwrap();
    link.step(LinkEvent::Start);
    assert_eq!(
        link.step(LinkEvent::ConnectFailed),
        LinkAction::BackOff { wait_ms: 0, backoff_ms: 0 }
    );
    assert_eq!(link.retry_count(), 1);
}
