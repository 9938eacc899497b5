use zellij_web_client::control::session::{
    event_of_heartbeat, ControlAction, ControlEvent, ControlPayload, ControlSession, Resize, Size,
};
use zellij_web_client::heartbeat::{heartbeat_step, HeartbeatAction, HeartbeatEvent};

const MILLI: u64 = 1_000_000;

fn size(n: usize) -> Size {
    Size { rows: n, cols: 2 * n }
}

fn resized(n: usize) -> Resize {
    Resize {
        web_client_id: "me".to_string(),
        size: size(n),
    }
}

fn message(payload: ControlPayload, now: u64) -> ControlEvent {
    ControlEvent::Message {
        web_client_id: "me".to_string(),
        payload,
        owned: true,
        timestamp: 1000,
        now,
    }
}

fn resize(n: usize, now: u64) -> ControlEvent {
    message(ControlPayload::TerminalResize(size(n)), now)
}

fn forwarded(n: usize) -> ControlAction {
    ControlAction::ForwardResize(resized(n))
}

fn scheduled(n: usize) -> ControlAction {
    ControlAction::ScheduleResize {
        resize: resized(n),
        delay_millis: 50,
    }
}

fn registered() -> ControlSession {
    let mut session = ControlSession::open().0;
    session.step(message(ControlPayload::HeartbeatResponse, 0));
    session
}

#[test]
fn first_message_registers_the_client_before_anything_else() {
    let mut session = ControlSession::open().0;
    assert_eq!(
        session.step(message(ControlPayload::HeartbeatResponse, 0)),
        vec![
            ControlAction::RegisterControlChannel {
                web_client_id: "me".to_string()
            },
            ControlAction::RecordHeartbeat { timestamp: 1000 },
        ]
    );
    assert_eq!(
        session.step(message(ControlPayload::HeartbeatResponse, 0)),
        vec![ControlAction::RecordHeartbeat { timestamp: 1000 }]
    );
    assert_eq!(session.step(resize(1, 0)), vec![forwarded(1)]);
}

#[test]
fn burst_of_resizes_is_throttled_to_its_first_and_last() {
    let mut session = registered();
    let start = 3 * MILLI;
    assert_eq!(session.step(resize(1, start)), vec![forwarded(1)]);
    assert_eq!(session.step(resize(2, start + MILLI)), vec![scheduled(2)]);
    assert_eq!(
        session.step(resize(3, start + 2 * MILLI)),
        vec![ControlAction::CancelPendingResize, scheduled(3)]
    );
    assert_eq!(session.step(ControlEvent::Pong), vec![]);
    assert_eq!(session.step(ControlEvent::Ended), vec![ControlAction::CancelHeartbeat]);
}

#[test]
fn resize_after_the_throttling_time_is_passed_on_at_once() {
    let mut session = registered();
    assert_eq!(session.step(resize(1, 0)), vec![forwarded(1)]);
    assert_eq!(session.step(resize(2, 50 * MILLI - 1)), vec![scheduled(2)]);
    assert_eq!(
        session.step(resize(3, 50 * MILLI)),
        vec![ControlAction::CancelPendingResize, forwarded(3)]
    );
    assert_eq!(session.step(resize(4, 99 * MILLI)), vec![scheduled(4)]);
}

#[test]
fn foreign_client_identity_cuts_the_connection_off() {
    let mut session = registered();
    session.step(resize(1, 0));
    session.step(resize(2, 1));
    let foreign = ControlEvent::Message {
        web_client_id: "you".to_string(),
        payload: ControlPayload::HeartbeatResponse,
        owned: false,
        timestamp: 1000,
        now: 2,
    };
    assert!(!session.is_closed());
    assert_eq!(session.step(foreign), vec![]);
    assert!(session.is_closed());
}

#[test]
fn closing_stops_the_heartbeat_and_gives_up_a_pending_resize() {
    let mut session = registered();
    session.step(resize(1, 0));
    session.step(resize(2, 1));
    assert_eq!(
        session.step(ControlEvent::Close),
        vec![ControlAction::CancelHeartbeat, ControlAction::CancelPendingResize]
    );
    assert!(session.is_closed());

    let mut idle = ControlSession::open().0;
    assert_eq!(idle.step(ControlEvent::Close), vec![ControlAction::CancelHeartbeat]);
    assert!(idle.is_closed());
}

#[test]
fn broken_connection_stops_the_heartbeat_and_keeps_a_pending_resize() {
    let mut session = registered();
    session.step(resize(1, 0));
    session.step(resize(2, 1));
    assert_eq!(session.step(ControlEvent::Ended), vec![ControlAction::CancelHeartbeat]);
    assert!(session.is_closed());
}

#[test]
fn new_connection_starts_with_the_configuration() {
    let (session, actions) = ControlSession::open();
    assert!(!session.is_closed());
    assert_eq!(
        actions,
        vec![ControlAction::SendConfig, ControlAction::StartHeartbeat]
    );
}

#[test]
fn timed_out_client_is_disconnected() {
    let tick = |now| HeartbeatEvent::Tick {
        now,
        last_response: 1000,
    };
    assert_eq!(event_of_heartbeat(&heartbeat_step(None, tick(1045))), None);
    assert_eq!(event_of_heartbeat(&heartbeat_step(None, tick(1091))), None);
    let event = event_of_heartbeat(&heartbeat_step(None, tick(1060)));
    assert_eq!(event, Some(ControlEvent::TimedOut));
    let mut session = registered();
    assert_eq!(
        session.step(ControlEvent::TimedOut),
        vec![ControlAction::CancelHeartbeat, ControlAction::CloseSocket]
    );
    assert!(session.is_closed());
}

#[test]
fn heartbeat_that_ends_with_its_connection_closes_nothing() {
    for event in [HeartbeatEvent::Cancelled, HeartbeatEvent::ProbeSent(false)] {
        assert_eq!(event_of_heartbeat(&heartbeat_step(Some(5), event)), None);
    }
    assert_eq!(event_of_heartbeat(&HeartbeatAction::Wait), None);
}

#[test]
fn other_control_frames_change_nothing() {
    let mut session = registered();
    assert_eq!(
        session.step(ControlEvent::Ping(vec![1, 2, 3])),
        vec![ControlAction::SendPong(vec![1, 2, 3])]
    );
    for event in [ControlEvent::Malformed, ControlEvent::Unsupported, ControlEvent::Pong] {
        assert_eq!(session.step(event), vec![]);
    }
    assert_eq!(session, registered());
}
