use gray_mirror::gateway::{
    classify_rpc_error, retry_decision, GatewayAction, Interval, IntervalSet, InvokeMachine,
    RemoteError, RetryState,
};

#[test]
fn gate_spacing_enforced() {
    let mut gate = Interval::from_millis(100);
    assert!(gate.ready(0));
    gate.tick(0);
    assert!(!gate.ready(99));
    assert!(gate.ready(100));
    gate.tick(100);
    assert_eq!(gate.next_ready(), 200);
    gate.tick(350);
    assert_eq!(gate.next_ready(), 450);
}

#[test]
fn gate_from_secs_period() {
    let gate = Interval::from_secs(300);
    assert_eq!(gate.period_ms, 300_000);
    assert_eq!(gate.next_ready(), 0);
}

#[test]
fn three_calls_span_two_periods() {
    // across M consecutive calls, elapsed time is at least (M-1) x interval
    let mut gate = Interval::from_millis(50);
    let mut fires = Vec::new();
    let mut now: u64 = 7;
    for _ in 0..3 {
        while !gate.ready(now) {
            now += 1;
        }
        gate.tick(now);
        fires.push(now);
        now += 3;
    }
    assert!(fires[2] - fires[0] >= 2 * 50);
}

#[test]
fn default_interval_set_periods() {
    let set = IntervalSet::default();
    assert_eq!(set.join_chat.period_ms, 300_000);
    assert_eq!(set.quit_chat.period_ms, 300_000);
    assert_eq!(set.resolve_username.period_ms, 60_000);
    assert_eq!(set.unpack_chat.period_ms, 500);
    assert_eq!(set.find_msg.period_ms, 15);
}

#[test]
fn rpc_error_classification() {
    assert_eq!(
        classify_rpc_error(420, "FLOOD_WAIT", Some(30)),
        RemoteError::RateLimited { cooldown_secs: 30 }
    );
    assert_eq!(classify_rpc_error(420, "FLOOD_WAIT", None), RemoteError::Other);
    assert_eq!(
        classify_rpc_error(400, "CHANNELS_TOO_MUCH", None),
        RemoteError::CapacityExceeded
    );
    assert_eq!(classify_rpc_error(400, "SOMETHING_ELSE", None), RemoteError::Other);
    assert_eq!(classify_rpc_error(500, "CHANNELS_TOO_MUCH", None), RemoteError::Other);
}

#[test]
fn retry_policy_single_retry() {
    let limited = RemoteError::RateLimited { cooldown_secs: 9 };
    assert_eq!(retry_decision(limited, false, false), GatewayAction::SleepRetry { seconds: 9 });
    assert_eq!(retry_decision(limited, true, false), GatewayAction::Fail);
    assert_eq!(retry_decision(RemoteError::CapacityExceeded, false, true), GatewayAction::EvictRetry);
    assert_eq!(retry_decision(RemoteError::CapacityExceeded, false, false), GatewayAction::Fail);
    assert_eq!(retry_decision(RemoteError::CapacityExceeded, true, true), GatewayAction::Fail);
    assert_eq!(retry_decision(RemoteError::Other, false, true), GatewayAction::Fail);
}

#[test]
fn invoke_machine_flood_path() {
    let mut m = InvokeMachine::new(false);
    assert_eq!(m.attempts, 1);
    m.on_failure(RemoteError::RateLimited { cooldown_secs: 5 });
    assert_eq!(m.state, RetryState::Backoff { remaining_secs: 5 });
    m.on_retry();
    assert_eq!(m.attempts, 2);
    m.on_failure(RemoteError::RateLimited { cooldown_secs: 5 });
    assert_eq!(
        m.state,
        RetryState::Failed { error: RemoteError::RateLimited { cooldown_secs: 5 } }
    );
    assert_eq!(m.attempts, 2);
}

#[test]
fn invoke_machine_capacity_path() {
    let mut m = InvokeMachine::new(true);
    m.on_failure(RemoteError::CapacityExceeded);
    assert_eq!(m.state, RetryState::Evicting);
    m.on_retry();
    m.on_success();
    assert_eq!(m.state, RetryState::Succeeded);
    assert_eq!(m.attempts, 2);
}

#[test]
fn invoke_machine_other_error_propagates() {
    let mut m = InvokeMachine::new(true);
    m.on_failure(RemoteError::Other);
    assert_eq!(m.state, RetryState::Failed { error: RemoteError::Other });
}
