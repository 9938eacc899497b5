//! The heartbeat of a control connection: probing the client, dropping it when
//! it stays silent, and sparing it when the machine was asleep.

use std::time::{SystemTime, UNIX_EPOCH};
use vstd::prelude::*;

verus! {

pub const HEARTBEAT_INTERVAL_SECS: u64 = 30;

pub const DEFAULT_HEARTBEAT_TIMEOUT_SECS: u64 = 45;

/// If a client's silence exceeds this multiple of the interval, the system
/// likely just woke from sleep. Reset the timer instead of killing the
/// connection.
pub const SLEEP_DETECTION_MULTIPLIER: u64 = 3;

/// The seconds from `last_response` to `now`; none when the clock went back.
pub open spec fn elapsed(now: u64, last_response: u64) -> int {
    if now > last_response {
        now - last_response
    } else {
        0
    }
}

/// The silence that is taken for a sleep of the system when it is exceeded.
pub open spec fn sleep_threshold() -> int {
    HEARTBEAT_INTERVAL_SECS * SLEEP_DETECTION_MULTIPLIER
}

/// The silence that ends a connection when it is exceeded; a timeout of zero
/// never does.
pub open spec fn allowed_silence(heartbeat_timeout_secs: Option<u64>) -> Option<u64> {
    match heartbeat_timeout_secs {
        Some(0) => None,
        Some(secs) => Some(secs),
        None => Some(DEFAULT_HEARTBEAT_TIMEOUT_SECS),
    }
}

/// The client has been silent for longer than it may be.
pub open spec fn overdue(heartbeat_timeout_secs: Option<u64>, now: u64, last_response: u64) -> bool {
    allowed_silence(heartbeat_timeout_secs) matches Some(secs) && elapsed(now, last_response)
        > secs
}

/// Whether a client that last responded at `last_response` has timed out.
pub fn heartbeat_timed_out(
    heartbeat_timeout_secs: Option<u64>,
    now: u64,
    last_response: u64,
) -> (r: bool)
    ensures
        r == overdue(heartbeat_timeout_secs, now, last_response),
{
    match heartbeat_timeout_secs {
        Some(0) => false,
        Some(timeout_secs) => now.saturating_sub(last_response) > timeout_secs,
        None => now.saturating_sub(last_response) > DEFAULT_HEARTBEAT_TIMEOUT_SECS,
    }
}

/// `SystemTime::now`, as the whole seconds since the Unix epoch that
/// `SystemTime::duration_since` and `Duration::as_secs` make of it, or `None`
/// when the clock stands before the epoch. Nothing is claimed of the reading.
#[verifier::external_body]
fn read_unix_clock() -> (r: Option<u64>) {
    match SystemTime::now().duration_since(UNIX_EPOCH) {
        Ok(since_epoch) => Some(since_epoch.as_secs()),
        Err(_) => None,
    }
}

/// The system's clock may be read like this.
pub closed spec fn clock_shows(reading: Option<u64>) -> bool {
    call_ensures(read_unix_clock, (), reading)
}

/// The timestamp for a reading of the clock: a clock before the epoch stands at
/// the epoch.
pub open spec fn timestamp(reading: Option<u64>) -> u64 {
    match reading {
        Some(secs) => secs,
        None => 0,
    }
}

/// The timestamp for a reading of the clock.
pub fn timestamp_of(reading: Option<u64>) -> (r: u64)
    ensures
        r == timestamp(reading),
{
    match reading {
        Some(secs) => secs,
        None => 0,
    }
}

fn reading_of<F: Fn() -> Option<u64>>(clock: F) -> (r: Option<u64>)
    requires
        call_requires(clock, ()),
    ensures
        call_ensures(clock, (), r),
{
    clock()
}

/// The seconds since the Unix epoch, as the system's clock shows them.
pub fn current_timestamp() -> (r: u64)
    ensures
        exists|reading: Option<u64>| #[trigger] clock_shows(reading) && r == timestamp(reading),
{
    let reading = reading_of(read_unix_clock);
    assert(clock_shows(reading));
    timestamp_of(reading)
}

/// What happens to the task that sends heartbeats.
#[derive(Debug, PartialEq, Eq)]
pub enum HeartbeatEvent {
    /// The connection has come to its end.
    Cancelled,
    /// It is time for a heartbeat.
    Tick { now: u64, last_response: u64 },
    /// The probe was handed to the connection, or the connection is gone.
    ProbeSent(bool),
}

/// What the task that sends heartbeats does next.
#[derive(Debug, PartialEq, Eq)]
pub enum HeartbeatAction {
    /// Wait for the next tick.
    Wait,
    /// Record `now` as the time of the last response, if `reset`, then probe the
    /// client.
    Probe { now: u64, reset: bool },
    /// Stop, because of a timeout of `timed_out` seconds if there was one.
    Stop { timed_out: Option<u64> },
}

/// What a tick at `now` calls for, given when the client last responded.
pub open spec fn tick(
    heartbeat_timeout_secs: Option<u64>,
    now: u64,
    last_response: u64,
) -> HeartbeatAction {
    if elapsed(now, last_response) > sleep_threshold() {
        HeartbeatAction::Probe { now, reset: true }
    } else if overdue(heartbeat_timeout_secs, now, last_response) {
        HeartbeatAction::Stop { timed_out: allowed_silence(heartbeat_timeout_secs) }
    } else {
        HeartbeatAction::Probe { now, reset: false }
    }
}

/// Decides what a heartbeat tick at `now` calls for. A sleep of the system is
/// looked for before a timeout.
pub fn heartbeat_tick(
    heartbeat_timeout_secs: Option<u64>,
    now: u64,
    last_response: u64,
) -> (r: HeartbeatAction)
    ensures
        r == tick(heartbeat_timeout_secs, now, last_response),
{
    if now.saturating_sub(last_response) > HEARTBEAT_INTERVAL_SECS * SLEEP_DETECTION_MULTIPLIER {
        return HeartbeatAction::Probe { now, reset: true };
    }
    if heartbeat_timed_out(heartbeat_timeout_secs, now, last_response) {
        let timeout_secs: u64 = heartbeat_timeout_secs.unwrap_or(DEFAULT_HEARTBEAT_TIMEOUT_SECS);
        return HeartbeatAction::Stop { timed_out: Some(timeout_secs) };
    }
    HeartbeatAction::Probe { now, reset: false }
}

/// The action on each event.
pub open spec fn heartbeat_action(
    heartbeat_timeout_secs: Option<u64>,
    event: HeartbeatEvent,
) -> HeartbeatAction {
    match event {
        HeartbeatEvent::Cancelled => HeartbeatAction::Stop { timed_out: None },
        HeartbeatEvent::Tick { now, last_response } => tick(
            heartbeat_timeout_secs,
            now,
            last_response,
        ),
        HeartbeatEvent::ProbeSent(sent) => if sent {
            HeartbeatAction::Wait
        } else {
            HeartbeatAction::Stop { timed_out: None }
        },
    }
}

/// Decides what the task that sends heartbeats does on `event`.
pub fn heartbeat_step(heartbeat_timeout_secs: Option<u64>, event: HeartbeatEvent) -> (r:
    HeartbeatAction)
    ensures
        r == heartbeat_action(heartbeat_timeout_secs, event),
{
    match event {
        HeartbeatEvent::Cancelled => HeartbeatAction::Stop { timed_out: None },
        HeartbeatEvent::Tick { now, last_response } => heartbeat_tick(
            heartbeat_timeout_secs,
            now,
            last_response,
        ),
        HeartbeatEvent::ProbeSent(sent) => if sent {
            HeartbeatAction::Wait
        } else {
            HeartbeatAction::Stop { timed_out: None }
        },
    }
}

/// The threshold of sleep detection lies above the default timeout, so that a
/// silence between the two ends a connection and a longer one does not.
pub proof fn law_sleep_threshold_exceeds_default_timeout(now: u64, last_response: u64)
    ensures
        sleep_threshold() > DEFAULT_HEARTBEAT_TIMEOUT_SECS,
        tick(None, now, last_response) is Stop <==> DEFAULT_HEARTBEAT_TIMEOUT_SECS < elapsed(
            now,
            last_response,
        ) <= sleep_threshold(),
{
}

/// A gap that betrays a sleep of the system never ends a connection, whatever
/// the timeout: the timer starts anew, and the same tick would now just probe.
pub proof fn law_sleep_resets_instead_of_ending(
    heartbeat_timeout_secs: Option<u64>,
    now: u64,
    last_response: u64,
)
    requires
        elapsed(now, last_response) > sleep_threshold(),
    ensures
        tick(heartbeat_timeout_secs, now, last_response) == (HeartbeatAction::Probe {
            now,
            reset: true,
        }),
        tick(heartbeat_timeout_secs, now, now) == (HeartbeatAction::Probe { now, reset: false }),
{
}

/// A gap of at most one interval is never taken for a sleep of the system.
pub proof fn law_normal_gap_is_not_sleep(
    heartbeat_timeout_secs: Option<u64>,
    now: u64,
    last_response: u64,
)
    requires
        elapsed(now, last_response) <= HEARTBEAT_INTERVAL_SECS,
    ensures
        tick(heartbeat_timeout_secs, now, last_response) != (HeartbeatAction::Probe {
            now,
            reset: true,
        }),
{
}

/// A timeout of zero never ends a connection, and neither does one at or above
/// the threshold of sleep detection.
pub proof fn law_which_timeouts_never_end_a_connection(secs: u64, now: u64, last_response: u64)
    requires
        secs == 0 || secs >= sleep_threshold(),
    ensures
        !(tick(Some(secs), now, last_response) is Stop),
{
}

/// With ticks at most one interval apart, a client that stays silent is dropped
/// by the first tick past its timeout, provided that the timeout lies at least
/// one interval below the threshold of sleep detection, as the default does.
pub proof fn law_silent_client_is_dropped(
    heartbeat_timeout_secs: Option<u64>,
    last_response: u64,
    tick_in_time: u64,
    next_tick: u64,
)
    requires
        allowed_silence(heartbeat_timeout_secs) matches Some(secs) && secs
            + HEARTBEAT_INTERVAL_SECS <= sleep_threshold() && elapsed(tick_in_time, last_response)
            <= secs && elapsed(next_tick, last_response) > secs,
        last_response <= tick_in_time <= next_tick <= tick_in_time + HEARTBEAT_INTERVAL_SECS,
    ensures
        tick(heartbeat_timeout_secs, tick_in_time, last_response) is Probe,
        tick(heartbeat_timeout_secs, next_tick, last_response) is Stop,
        allowed_silence(None)->0 + HEARTBEAT_INTERVAL_SECS <= sleep_threshold(),
{
}

/// A client that responds within the time that it has is never dropped.
pub proof fn law_responsive_client_is_kept(
    heartbeat_timeout_secs: Option<u64>,
    now: u64,
    last_response: u64,
)
    requires
        allowed_silence(heartbeat_timeout_secs) matches Some(secs) ==> elapsed(now, last_response)
            <= secs,
    ensures
        tick(heartbeat_timeout_secs, now, last_response) is Probe,
{
}

/// A clock that went back ends no connection.
pub proof fn law_clock_going_back_is_harmless(
    heartbeat_timeout_secs: Option<u64>,
    now: u64,
    last_response: u64,
)
    requires
        now <= last_response,
    ensures
        tick(heartbeat_timeout_secs, now, last_response) == (HeartbeatAction::Probe {
            now,
            reset: false,
        }),
{
}

/// A client is overdue if more seconds than its timeout have gone by since it last
/// responded. Without a timeout of its own it has the default one; with a timeout
/// of zero it is never overdue.
pub proof fn law_when_a_client_is_overdue(
    heartbeat_timeout_secs: Option<u64>,
    now: u64,
    last_response: u64,
)
    ensures
        overdue(heartbeat_timeout_secs, now, last_response) == match heartbeat_timeout_secs {
            Some(secs) => secs > 0 && now - last_response > secs,
            None => now - last_response > DEFAULT_HEARTBEAT_TIMEOUT_SECS,
        },
{
}

/// What a tick does, by the seconds since the client last responded: past the
/// threshold of sleep detection the timer starts anew and the client is probed; up
/// to it, the heartbeat stops if the timeout is exceeded, and names the timeout; in
/// every other case the client is just probed. A probe carries the time of its
/// tick.
pub proof fn law_what_a_tick_does(
    heartbeat_timeout_secs: Option<u64>,
    now: u64,
    last_response: u64,
)
    ensures
        ({
            let gap = now - last_response;
            let asleep = HEARTBEAT_INTERVAL_SECS * SLEEP_DETECTION_MULTIPLIER;
            let secs = match heartbeat_timeout_secs {
                Some(secs) => secs,
                None => DEFAULT_HEARTBEAT_TIMEOUT_SECS,
            };
            let action = tick(heartbeat_timeout_secs, now, last_response);
            &&& gap > asleep ==> action == (HeartbeatAction::Probe { now, reset: true })
            &&& gap <= asleep && gap > secs && secs > 0 ==> action == (HeartbeatAction::Stop {
                timed_out: Some(secs),
            })
            &&& gap <= asleep && (gap <= secs || secs == 0) ==> action == (HeartbeatAction::Probe {
                now,
                reset: false,
            })
        }),
{
}

/// A tick decides by the clock. A probe that was sent is followed by waiting. The
/// end of the connection, and a probe that could not be sent, stop the heartbeat
/// without a timeout.
pub proof fn law_what_the_heartbeat_does(
    heartbeat_timeout_secs: Option<u64>,
    now: u64,
    last_response: u64,
)
    ensures
        heartbeat_action(heartbeat_timeout_secs, HeartbeatEvent::Tick { now, last_response })
            == tick(heartbeat_timeout_secs, now, last_response),
        heartbeat_action(heartbeat_timeout_secs, HeartbeatEvent::ProbeSent(true)) is Wait,
        heartbeat_action(heartbeat_timeout_secs, HeartbeatEvent::ProbeSent(false)) == (
        HeartbeatAction::Stop { timed_out: None }),
        heartbeat_action(heartbeat_timeout_secs, HeartbeatEvent::Cancelled) == (
        HeartbeatAction::Stop { timed_out: None }),
{
}

/// A clock that shows a time is believed; one that stands before the epoch counts
/// as standing at it.
pub proof fn law_what_a_timestamp_is(secs: u64)
    ensures
        timestamp(Some(secs)) == secs,
        timestamp(None) == 0,
{
}

/// What the functions of this module answer, by the clock alone.
pub proof fn law_answers_go_by_the_clock(
    heartbeat_timeout_secs: Option<u64>,
    now: u64,
    last_response: u64,
    timed_out: bool,
    action: HeartbeatAction,
    stepped: HeartbeatAction,
)
    requires
        call_ensures(heartbeat_timed_out, (heartbeat_timeout_secs, now, last_response), timed_out),
        call_ensures(heartbeat_tick, (heartbeat_timeout_secs, now, last_response), action),
        call_ensures(
            heartbeat_step,
            (heartbeat_timeout_secs, HeartbeatEvent::Tick { now, last_response }),
            stepped,
        ),
    ensures
        ({
            let gap = now - last_response;
            let asleep = gap > HEARTBEAT_INTERVAL_SECS * SLEEP_DETECTION_MULTIPLIER;
            &&& timed_out <==> match heartbeat_timeout_secs {
                Some(secs) => secs > 0 && gap > secs,
                None => gap > DEFAULT_HEARTBEAT_TIMEOUT_SECS,
            }
            &&& action is Stop <==> timed_out && !asleep
            &&& action is Probe <==> !timed_out || asleep
            &&& stepped == action
        }),
{
}

} // verus!
