use zellij_web_client::heartbeat::{
    current_timestamp, heartbeat_step, heartbeat_tick, heartbeat_timed_out, timestamp_of,
    HeartbeatAction, HeartbeatEvent, DEFAULT_HEARTBEAT_TIMEOUT_SECS, HEARTBEAT_INTERVAL_SECS,
    SLEEP_DETECTION_MULTIPLIER,
};

#[test]
fn heartbeat_timeout_defaults_to_45_seconds() {
    assert!(!heartbeat_timed_out(None, 45, 1));
    assert!(heartbeat_timed_out(None, 47, 1));
}

#[test]
fn heartbeat_timeout_can_be_disabled_with_zero() {
    assert!(!heartbeat_timed_out(Some(0), 10_000, 1));
}

#[test]
fn heartbeat_timeout_uses_custom_value_when_configured() {
    assert!(!heartbeat_timed_out(Some(120), 200, 100));
    assert!(heartbeat_timed_out(Some(120), 221, 100));
}

#[test]
fn sleep_detection_threshold_exceeds_normal_timeout() {
    // The sleep detection check runs before the timeout check in the heartbeat
    // loop.
    let gap = HEARTBEAT_INTERVAL_SECS * SLEEP_DETECTION_MULTIPLIER;
    assert!(
        gap > DEFAULT_HEARTBEAT_TIMEOUT_SECS,
        "sleep detection threshold ({gap}s) must exceed default timeout ({}s)",
        DEFAULT_HEARTBEAT_TIMEOUT_SECS
    );
}

#[test]
fn normal_heartbeat_gap_is_not_detected_as_sleep() {
    // A gap of 1 interval (30s) is normal operation.
    let elapsed = HEARTBEAT_INTERVAL_SECS;
    assert!(
        elapsed <= HEARTBEAT_INTERVAL_SECS * SLEEP_DETECTION_MULTIPLIER,
        "normal heartbeat gap should not trigger sleep detection"
    );
}

#[test]
fn large_gap_triggers_sleep_detection() {
    // 1800s gap (30 min sleep) should be detected.
    let elapsed: u64 = 1800;
    assert!(
        elapsed > HEARTBEAT_INTERVAL_SECS * SLEEP_DETECTION_MULTIPLIER,
        "30 minute gap should trigger sleep detection"
    );
}

#[test]
fn timeout_is_exceeded_not_reached() {
    assert!(!heartbeat_timed_out(None, 145, 100));
    assert!(heartbeat_timed_out(None, 146, 100));
    assert!(!heartbeat_timed_out(Some(120), 220, 100));
}

#[test]
fn clock_going_back_does_not_time_out() {
    assert!(!heartbeat_timed_out(Some(1), 5, 100));
    assert_eq!(
        heartbeat_tick(Some(1), 5, 100),
        HeartbeatAction::Probe { now: 5, reset: false }
    );
}

#[test]
fn silence_past_the_timeout_ends_the_connection() {
    assert_eq!(
        heartbeat_tick(None, 1060, 1000),
        HeartbeatAction::Stop { timed_out: Some(45) }
    );
    assert_eq!(
        heartbeat_tick(Some(10), 1060, 1000),
        HeartbeatAction::Stop { timed_out: Some(10) }
    );
    assert_eq!(
        heartbeat_tick(None, 1090, 1000),
        HeartbeatAction::Stop { timed_out: Some(45) }
    );
}

#[test]
fn waking_up_resets_the_timer() {
    assert_eq!(
        heartbeat_tick(None, 1091, 1000),
        HeartbeatAction::Probe { now: 1091, reset: true }
    );
    assert_eq!(
        heartbeat_tick(None, 2800, 1000),
        HeartbeatAction::Probe { now: 2800, reset: true }
    );
    assert_eq!(
        heartbeat_tick(None, 1091, 1091),
        HeartbeatAction::Probe { now: 1091, reset: false }
    );
}

#[test]
fn zero_and_long_timeouts_never_end_a_connection() {
    for gap in 0..=200u64 {
        for secs in [0, 90, 120] {
            assert!(!matches!(
                heartbeat_tick(Some(secs), 1000 + gap, 1000),
                HeartbeatAction::Stop { .. }
            ));
        }
    }
}

#[test]
fn silent_client_is_dropped_at_the_first_tick_past_its_timeout() {
    assert_eq!(
        heartbeat_tick(None, 1030, 1000),
        HeartbeatAction::Probe { now: 1030, reset: false }
    );
    assert!(matches!(
        heartbeat_tick(None, 1060, 1000),
        HeartbeatAction::Stop { .. }
    ));
}

#[test]
fn heartbeat_task_stops_when_cancelled_or_disconnected() {
    assert_eq!(
        heartbeat_step(None, HeartbeatEvent::Cancelled),
        HeartbeatAction::Stop { timed_out: None }
    );
    assert_eq!(
        heartbeat_step(None, HeartbeatEvent::ProbeSent(false)),
        HeartbeatAction::Stop { timed_out: None }
    );
    assert_eq!(
        heartbeat_step(None, HeartbeatEvent::ProbeSent(true)),
        HeartbeatAction::Wait
    );
    assert_eq!(
        heartbeat_step(None, HeartbeatEvent::Tick { now: 20, last_response: 10 }),
        HeartbeatAction::Probe { now: 20, reset: false }
    );
}

#[test]
fn timestamps_count_from_the_epoch() {
    assert_eq!(timestamp_of(Some(7)), 7);
    assert_eq!(timestamp_of(None), 0);
    // The clock of any machine that runs this stands after September 2001.
    assert!(current_timestamp() > 1_000_000_000);
}
