//! What holds of every run of a control connection.

use vstd::prelude::*;

use super::session::{
    ControlAction, ControlActionView, ControlEvent, ControlEventView, ControlPayload,
    ControlSession, ControlState, NANOS_PER_MILLI, RESIZE_THROTTLE_MILLIS, ResizeView, Size,
    actions_view, heartbeat_event, opening,
};
use crate::heartbeat::{
    HeartbeatAction, HeartbeatEvent, elapsed, heartbeat_action, overdue, sleep_threshold, tick,
};

verus! {

impl ControlState {
    /// The state after `events`.
    pub open spec fn after(self, events: Seq<ControlEventView>) -> Self
        decreases events.len(),
    {
        if events.len() == 0 {
            self
        } else {
            self.after(events.drop_last()).next(events.last()).0
        }
    }

    /// All that is called for in the course of `events`, in order.
    pub open spec fn asked(self, events: Seq<ControlEventView>) -> Seq<ControlActionView>
        decreases events.len(),
    {
        if events.len() == 0 {
            seq![]
        } else {
            self.asked(events.drop_last()) + self.after(events.drop_last()).next(events.last()).1
        }
    }

    /// Each of `events` finds the connection open.
    pub open spec fn runs(self, events: Seq<ControlEventView>) -> bool
        decreases events.len(),
    {
        events.len() == 0 || (self.runs(events.drop_last()) && !self.after(
            events.drop_last(),
        ).closed)
    }
}

/// The client resizes its own terminal.
pub open spec fn is_resize(event: ControlEventView) -> bool {
    event matches ControlEventView::Message {
        owned: true,
        payload: ControlPayload::TerminalResize(_),
        ..
    }
}

/// The size that the client asks for.
pub open spec fn resize_of(event: ControlEventView) -> ResizeView {
    ResizeView {
        web_client_id: event->web_client_id,
        size: event->payload->TerminalResize_0,
    }
}

/// The event is a resize that is passed on without delay.
pub open spec fn passes_on(s: ControlState, event: ControlEventView) -> bool {
    is_resize(event) && !s.throttled(event->now)
}

/// A message that names a client identity of someone else ends the connection,
/// and nothing is done about it.
pub proof fn law_foreign_identity_is_cut_off(
    s: ControlState,
    web_client_id: Seq<char>,
    payload: ControlPayload,
    timestamp: u64,
    now: u64,
)
    ensures
        ({
            let event = ControlEventView::Message {
                web_client_id,
                payload,
                owned: false,
                timestamp,
                now,
            };
            s.next(event) == (ControlState { closed: true, ..s }, Seq::<ControlActionView>::empty())
        }),
{
}

/// No resize of the client's own is dropped. It is passed on at once if the
/// throttling time is over, and put off by that time otherwise.
pub proof fn law_every_resize_is_passed_on_or_put_off(s: ControlState, event: ControlEventView)
    requires
        is_resize(event),
    ensures
        ({
            let (t, actions) = s.next(event);
            &&& actions.len() > 0
            &&& passes_on(s, event) ==> t.pending is None && actions.last()
                == ControlActionView::ForwardResize(resize_of(event))
            &&& !passes_on(s, event) ==> t.pending == Some(resize_of(event)) && actions.last() == (
            ControlActionView::ScheduleResize {
                resize: resize_of(event),
                delay_millis: RESIZE_THROTTLE_MILLIS,
            })
        }),
{
}

/// Nothing in `events` takes the place of a resize that was put off.
pub open spec fn leaves_resizes_alone(events: Seq<ControlEventView>) -> bool {
    forall|k: int|
        0 <= k < events.len() ==> !is_resize(#[trigger] events[k]) && !(events[k] is Close)
}

/// The last resize of a burst is never lost: it is passed on at once, or it is
/// put off and not given up, whatever else happens short of another resize or
/// of the client closing the connection.
pub proof fn law_last_resize_is_never_lost(
    s: ControlState,
    resize: ControlEventView,
    rest: Seq<ControlEventView>,
)
    requires
        is_resize(resize),
        s.next(resize).0.runs(rest),
        leaves_resizes_alone(rest),
    ensures
        ({
            let t = s.next(resize).0;
            &&& passes_on(s, resize) || t.after(rest).pending == Some(resize_of(resize))
            &&& forall|i: int|
                0 <= i < t.asked(rest).len() ==> !(#[trigger] t.asked(rest)[i]
                    is CancelPendingResize)
        }),
    decreases rest.len(),
{
    if rest.len() > 0 {
        let earlier = rest.drop_last();
        assert(rest.last() == rest[rest.len() - 1]);
        assert forall|k: int| 0 <= k < earlier.len() implies !is_resize(#[trigger] earlier[k])
            && !(earlier[k] is Close) by {
            assert(earlier[k] == rest[k]);
        }
        law_last_resize_is_never_lost(s, resize, earlier);
    }
}

/// At most one resize is put off at any time: between two that are put off, the
/// first is given up.
pub proof fn law_at_most_one_resize_is_pending(s: ControlState, events: Seq<ControlEventView>)
    requires
        s.runs(events),
    ensures
        forall|i: int, j: int|
            0 <= i < j < s.asked(events).len() && s.asked(events)[i] is ScheduleResize && s.asked(
                events,
            )[j] is ScheduleResize ==> exists|k: int|
                i < k < j && s.asked(events)[k] is CancelPendingResize,
        s.after(events).pending is None ==> forall|i: int|
            0 <= i < s.asked(events).len() && s.asked(events)[i] is ScheduleResize ==> exists|k: int|
                i < k < s.asked(events).len() && s.asked(events)[k] is CancelPendingResize,
    decreases events.len(),
{
    if events.len() > 0 {
        let earlier = events.drop_last();
        law_at_most_one_resize_is_pending(s, earlier);
        let mid = s.after(earlier);
        let prev = s.asked(earlier);
        let new = mid.next(events.last()).1;
        let all = s.asked(events);
        assert(all == prev + new);
        lemma_step_gives_up_first(mid, events.last());
        let n = prev.len() as int;
        assert forall|i: int, j: int|
            0 <= i < j < all.len() && all[i] is ScheduleResize
                && all[j] is ScheduleResize implies exists|k: int|
            i < k < j && all[k] is CancelPendingResize by {
            if j < n {
                assert(prev[i] is ScheduleResize && prev[j] is ScheduleResize);
                let k = choose|k: int| i < k < j && prev[k] is CancelPendingResize;
                assert(all[k] == prev[k]);
            } else {
                assert(new[j - n] is ScheduleResize);
                if i < n {
                    assert(prev[i] is ScheduleResize);
                    if mid.pending is Some {
                        assert(all[j - 1] == new[j - n - 1]);
                    } else {
                        let k = choose|k: int| i < k < n && prev[k] is CancelPendingResize;
                        assert(all[k] == prev[k]);
                    }
                } else {
                    assert(new[i - n] is ScheduleResize);
                }
            }
        }
        if s.after(events).pending is None {
            assert forall|i: int|
                0 <= i < all.len() && all[i] is ScheduleResize implies exists|k: int|
                i < k < all.len() && all[k] is CancelPendingResize by {
                if i < n {
                    assert(prev[i] is ScheduleResize);
                    if mid.pending is Some {
                        let k = choose|k: int|
                            0 <= k < new.len() && new[k] is CancelPendingResize;
                        assert(all[n + k] == new[k]);
                    } else {
                        let k = choose|k: int| i < k < n && prev[k] is CancelPendingResize;
                        assert(all[k] == prev[k]);
                    }
                } else {
                    assert(new[i - n] is ScheduleResize);
                }
            }
        }
    }
}

proof fn lemma_step_gives_up_first(s: ControlState, event: ControlEventView)
    ensures
        ({
            let (t, new) = s.next(event);
            &&& forall|j: int|
                0 <= j < new.len() && #[trigger] new[j] is ScheduleResize ==> j == new.len() - 1
                    && t.pending is Some && (s.pending is Some ==> j > 0 && new[j - 1]
                    is CancelPendingResize)
            &&& s.pending is Some && t.pending is None ==> exists|k: int|
                0 <= k < new.len() && new[k] is CancelPendingResize
        }),
{
    let (t, new) = s.next(event);
    if s.pending is Some && t.pending is None {
        if event is Close {
            assert(new[1] is CancelPendingResize);
        } else {
            assert(new[new.len() - 2] is CancelPendingResize);
        }
    }
}

/// The clock by which resizes are told apart does not go back.
pub open spec fn clock_goes_on(events: Seq<ControlEventView>) -> bool {
    forall|i: int, j: int|
        0 <= i <= j < events.len() && is_resize(events[i]) && is_resize(events[j])
            ==> events[i]->now <= events[j]->now
}

/// The event at `k` is a resize that is passed on without delay.
pub open spec fn passed_on_at(s: ControlState, events: Seq<ControlEventView>, k: int) -> bool {
    0 <= k < events.len() && passes_on(s.after(events.take(k)), events[k])
}

/// However fast resizes come, those that are passed on without delay lie at
/// least the throttling time apart.
pub proof fn law_immediate_resizes_are_spaced(
    s: ControlState,
    events: Seq<ControlEventView>,
    i: int,
    j: int,
)
    requires
        clock_goes_on(events),
        i < j,
        passed_on_at(s, events, i),
        passed_on_at(s, events, j),
    ensures
        events[j]->now - events[i]->now >= RESIZE_THROTTLE_MILLIS * NANOS_PER_MILLI,
{
    lemma_last_resize_time(s, events, i, j);
}

/// The time of the last resize passed on is no earlier than that of any of them.
proof fn lemma_last_resize_time(s: ControlState, events: Seq<ControlEventView>, i: int, j: int)
    requires
        clock_goes_on(events),
        passed_on_at(s, events, i),
        i < j <= events.len(),
    ensures
        s.after(events.take(j)).last_resize_at matches Some(t) && t >= events[i]->now && exists|
            k: int,
        |
            i <= k < j && is_resize(events[k]) && t == (#[trigger] events[k])->now,
    decreases j - i,
{
    assert(events.take(j).drop_last() =~= events.take(j - 1));
    assert(events.take(j).last() == events[j - 1]);
    if j > i + 1 {
        lemma_last_resize_time(s, events, i, j - 1);
    }
}

proof fn lemma_step_registers(s: ControlState, event: ControlEventView)
    ensures
        ({
            let (t, new) = s.next(event);
            &&& s.registered ==> t.registered
            &&& !s.registered && t.registered ==> new.len() > 0 && new[0] is RegisterControlChannel
            &&& forall|i: int|
                0 <= i < new.len() && #[trigger] new[i] is RegisterControlChannel ==> i == 0
                    && !s.registered && t.registered
        }),
{
}

/// A connection registers a client at most once, and does so exactly if it
/// counts as registered only afterwards.
pub proof fn law_registration_happens_once(s: ControlState, events: Seq<ControlEventView>)
    requires
        s.runs(events),
    ensures
        s.registered ==> s.after(events).registered,
        forall|i: int, j: int|
            0 <= i < j < s.asked(events).len() ==> !(s.asked(events)[i] is RegisterControlChannel
                && s.asked(events)[j] is RegisterControlChannel),
        (exists|i: int|
            0 <= i < s.asked(events).len() && s.asked(events)[i] is RegisterControlChannel)
            <==> !s.registered && s.after(events).registered,
    decreases events.len(),
{
    if events.len() > 0 {
        let earlier = events.drop_last();
        law_registration_happens_once(s, earlier);
        let mid = s.after(earlier);
        let prev = s.asked(earlier);
        let new = mid.next(events.last()).1;
        let all = s.asked(events);
        assert(all == prev + new);
        lemma_step_registers(mid, events.last());
        if !mid.registered && s.after(events).registered {
            assert(all[prev.len() as int] == new[0]);
        }
        if !s.registered && mid.registered {
            let i = choose|i: int| 0 <= i < prev.len() && prev[i] is RegisterControlChannel;
            assert(all[i] == prev[i]);
        }
        assert forall|i: int|
            0 <= i < all.len() && all[i] is RegisterControlChannel implies !s.registered && s.after(
            events,
        ).registered by {
            if i < prev.len() {
                assert(prev[i] is RegisterControlChannel);
            } else {
                assert(new[i - prev.len()] is RegisterControlChannel);
            }
        }
    }
}

/// The first message of a client's own registers the client that it names, and
/// does so before anything else.
pub proof fn law_first_message_registers_its_client(s: ControlState, event: ControlEventView)
    requires
        !s.registered,
        event matches ControlEventView::Message { owned: true, .. },
    ensures
        s.next(event).0.registered,
        s.next(event).1.len() > 0,
        s.next(event).1[0] == (ControlActionView::RegisterControlChannel {
            web_client_id: event->web_client_id,
        }),
{
}

/// The heartbeat is stopped when the client closes the connection, when the
/// connection breaks off and when the client times out, and only then: not when
/// the client is cut off.
pub proof fn law_when_the_heartbeat_stops(s: ControlState, event: ControlEventView)
    ensures
        event is Close || event is Ended || event is TimedOut ==> s.next(event).0.closed && s.next(
            event,
        ).1[0] is CancelHeartbeat,
        !(event is Close || event is Ended || event is TimedOut) ==> forall|i: int|
            0 <= i < s.next(event).1.len() ==> !(#[trigger] s.next(event).1[i] is CancelHeartbeat),
{
}

/// A tick of the heartbeat that finds the client overdue, and the system not just
/// woken from sleep, sends no probe and closes the connection.
pub proof fn law_timed_out_client_is_disconnected(
    s: ControlState,
    heartbeat_timeout_secs: Option<u64>,
    now: u64,
    last_response: u64,
)
    requires
        overdue(heartbeat_timeout_secs, now, last_response),
        elapsed(now, last_response) <= sleep_threshold(),
    ensures
        ({
            let action = tick(heartbeat_timeout_secs, now, last_response);
            &&& !(action is Probe)
            &&& heartbeat_event(action) matches Some(event) && s.next(event) == (
                ControlState { closed: true, ..s },
                seq![ControlActionView::CancelHeartbeat, ControlActionView::CloseSocket],
            )
        }),
{
}

/// The heartbeat closes the connection at no other time: only a tick at which it
/// stops does, not the end of the connection or of its channel.
pub proof fn law_only_a_timeout_closes_the_socket(
    heartbeat_timeout_secs: Option<u64>,
    event: HeartbeatEvent,
)
    ensures
        heartbeat_event(heartbeat_action(heartbeat_timeout_secs, event)) is Some <==> (
        event matches HeartbeatEvent::Tick { now, last_response } && tick(
            heartbeat_timeout_secs,
            now,
            last_response,
        ) is Stop),
{
}

/// The configuration is the first thing that a connection calls for, heartbeats
/// are the second, and neither is called for again.
pub proof fn law_configuration_comes_first(events: Seq<ControlEventView>)
    requires
        ControlState::initial().runs(events),
    ensures
        ({
            let all = opening() + ControlState::initial().asked(events);
            &&& forall|i: int|
                0 <= i < all.len() ==> (#[trigger] all[i] is SendConfig <==> i == 0)
            &&& forall|i: int|
                0 <= i < all.len() ==> (#[trigger] all[i] is StartHeartbeat <==> i == 1)
        }),
{
    let asked = ControlState::initial().asked(events);
    lemma_opening_is_not_repeated(ControlState::initial(), events);
    let all = opening() + asked;
    assert forall|i: int| 2 <= i < all.len() implies !(#[trigger] all[i] is SendConfig)
        && !(all[i] is StartHeartbeat) by {
        assert(all[i] == asked[i - 2]);
    }
}

proof fn lemma_opening_is_not_repeated(s: ControlState, events: Seq<ControlEventView>)
    ensures
        forall|i: int|
            0 <= i < s.asked(events).len() ==> !(#[trigger] s.asked(events)[i] is SendConfig) && !(
            s.asked(events)[i] is StartHeartbeat),
    decreases events.len(),
{
    if events.len() > 0 {
        lemma_opening_is_not_repeated(s, events.drop_last());
    }
}

/// Whatever happened before, a client's own response to a heartbeat is recorded
/// with its time, after the client was registered if it was not yet, and changes
/// nothing else. Nothing but such a response is ever recorded.
pub proof fn law_every_heartbeat_response_is_recorded(
    s: ControlState,
    web_client_id: Seq<char>,
    timestamp: u64,
    now: u64,
    other: ControlEventView,
)
    ensures
        ({
            let (t, actions) = s.next(
                ControlEventView::Message {
                    web_client_id,
                    payload: ControlPayload::HeartbeatResponse,
                    owned: true,
                    timestamp,
                    now,
                },
            );
            &&& actions.last() == (ControlActionView::RecordHeartbeat { timestamp })
            &&& s.registered ==> actions.len() == 1
            &&& !s.registered ==> actions.len() == 2 && actions[0] == (
            ControlActionView::RegisterControlChannel { web_client_id })
            &&& t == (ControlState { registered: true, ..s })
        }),
        forall|i: int|
            0 <= i < s.next(other).1.len() && #[trigger] s.next(other).1[i] is RecordHeartbeat
                ==> (other matches ControlEventView::Message {
                payload: ControlPayload::HeartbeatResponse,
                owned: true,
                timestamp: at,
                ..
            } && s.next(other).1[i] == (ControlActionView::RecordHeartbeat { timestamp: at })),
{
}

/// A client's own resize registers the client if it was not yet, gives up a resize
/// that was put off, and is then passed on at once, unless less than the
/// throttling time has gone by since one last was: then it is put off by that time.
pub proof fn law_what_a_resize_does(
    s: ControlState,
    web_client_id: Seq<char>,
    size: Size,
    timestamp: u64,
    now: u64,
)
    ensures
        ({
            let (t, actions) = s.next(
                ControlEventView::Message {
                    web_client_id,
                    payload: ControlPayload::TerminalResize(size),
                    owned: true,
                    timestamp,
                    now,
                },
            );
            let resize = ResizeView { web_client_id, size };
            let too_soon = s.last_resize_at matches Some(then) && now - then
                < RESIZE_THROTTLE_MILLIS * NANOS_PER_MILLI;
            let n = actions.len() as int;
            &&& n == 1 + (if s.registered {
                0int
            } else {
                1
            }) + (if s.pending is Some {
                1int
            } else {
                0
            })
            &&& !s.registered ==> actions[0] == (ControlActionView::RegisterControlChannel {
                web_client_id,
            })
            &&& s.pending is Some ==> actions[n - 2] is CancelPendingResize
            &&& t.registered
            &&& t.closed == s.closed
            &&& too_soon ==> {
                &&& actions[n - 1] == (ControlActionView::ScheduleResize {
                    resize,
                    delay_millis: RESIZE_THROTTLE_MILLIS,
                })
                &&& t.pending == Some(resize)
                &&& t.last_resize_at == s.last_resize_at
            }
            &&& !too_soon ==> {
                &&& actions[n - 1] == ControlActionView::ForwardResize(resize)
                &&& t.pending is None
                &&& t.last_resize_at == Some(now)
            }
        }),
{
}

/// A ping is answered with what it holds, and changes nothing. Nothing but a ping
/// is answered like that.
pub proof fn law_every_ping_is_answered(
    s: ControlState,
    payload: Seq<u8>,
    other: ControlEventView,
)
    ensures
        s.next(ControlEventView::Ping(payload)) == (s, seq![ControlActionView::SendPong(payload)]),
        !(other is Ping) ==> forall|i: int|
            0 <= i < s.next(other).1.len() ==> !(#[trigger] s.next(other).1[i] is SendPong),
{
}

/// Texts that are no messages, pongs and frames of other kinds are passed over.
pub proof fn law_other_frames_are_passed_over(s: ControlState, event: ControlEventView)
    requires
        event is Malformed || event is Pong || event is Unsupported,
    ensures
        s.next(event).0 == s,
        s.next(event).1.len() == 0,
{
}

/// A connection ends when the client closes it, when it breaks off, when the
/// client times out and when the client names an identity of someone else, and
/// at no other time.
pub proof fn law_when_a_connection_ends(s: ControlState, event: ControlEventView)
    requires
        !s.closed,
    ensures
        s.next(event).0.closed <==> (event is Close || event is Ended || event is TimedOut || (
        event matches ControlEventView::Message { owned: false, .. })),
{
}

/// What the end of a connection leaves behind. A close by the client gives up a
/// resize that was put off; the connection breaking off, and a timeout, do not. A
/// timeout has the socket closed, and nothing else does.
pub proof fn law_how_a_connection_ends(s: ControlState, event: ControlEventView)
    ensures
        event is Close ==> {
            let (t, actions) = s.next(event);
            &&& t == (ControlState { pending: None, closed: true, ..s })
            &&& actions[0] is CancelHeartbeat
            &&& s.pending is Some ==> actions.len() == 2 && actions[1] is CancelPendingResize
            &&& s.pending is None ==> actions.len() == 1
        },
        event is Ended ==> s.next(event) == (
            ControlState { closed: true, ..s },
            seq![ControlActionView::CancelHeartbeat],
        ),
        event is TimedOut ==> s.next(event) == (
            ControlState { closed: true, ..s },
            seq![ControlActionView::CancelHeartbeat, ControlActionView::CloseSocket],
        ),
        !(event is TimedOut) ==> forall|i: int|
            0 <= i < s.next(event).1.len() ==> !(#[trigger] s.next(event).1[i] is CloseSocket),
{
}

/// The heartbeat tells the connection of a timeout, of whatever length, and of
/// nothing else.
pub proof fn law_what_the_heartbeat_tells(action: HeartbeatAction)
    ensures
        heartbeat_event(action) matches Some(event) ==> event is TimedOut,
        heartbeat_event(action) is Some <==> (action matches HeartbeatAction::Stop { timed_out }
            && timed_out is Some),
{
}

/// On a new connection nothing has happened: no client is registered, no resize was
/// passed on or put off, and the connection is open. The configuration is sent and
/// the heartbeat is started, in this order.
pub proof fn law_new_connection()
    ensures
        !ControlState::initial().registered,
        ControlState::initial().last_resize_at is None,
        ControlState::initial().pending is None,
        !ControlState::initial().closed,
        opening() == seq![ControlActionView::SendConfig, ControlActionView::StartHeartbeat],
{
}

/// The times of the client's own responses to heartbeats in `events`, in order.
pub open spec fn response_times(events: Seq<ControlEventView>) -> Seq<u64>
    decreases events.len(),
{
    if events.len() == 0 {
        seq![]
    } else {
        let earlier = response_times(events.drop_last());
        match events.last() {
            ControlEventView::Message {
                payload: ControlPayload::HeartbeatResponse,
                owned: true,
                timestamp,
                ..
            } => earlier.push(timestamp),
            _ => earlier,
        }
    }
}

/// The times that are recorded, in order.
pub open spec fn recorded_times(actions: Seq<ControlActionView>) -> Seq<u64>
    decreases actions.len(),
{
    if actions.len() == 0 {
        seq![]
    } else {
        let earlier = recorded_times(actions.drop_last());
        match actions.last() {
            ControlActionView::RecordHeartbeat { timestamp } => earlier.push(timestamp),
            _ => earlier,
        }
    }
}

proof fn lemma_recorded_times_add_up(a: Seq<ControlActionView>, b: Seq<ControlActionView>)
    ensures
        recorded_times(a + b) == recorded_times(a) + recorded_times(b),
    decreases b.len(),
{
    if b.len() == 0 {
        assert(a + b =~= a);
    } else {
        assert((a + b).drop_last() =~= a + b.drop_last());
        lemma_recorded_times_add_up(a, b.drop_last());
    }
}

proof fn lemma_step_records(s: ControlState, event: ControlEventView)
    ensures
        recorded_times(s.next(event).1) == response_times(seq![event]),
{
    let new = s.next(event).1;
    assert(seq![event].drop_last() =~= seq![]);
    reveal_with_fuel(recorded_times, 4);
    reveal_with_fuel(response_times, 2);
    if new.len() > 0 {
        assert(new.drop_last().len() == new.len() - 1);
    }
}

/// Over a whole run, the times of exactly the client's own responses are recorded,
/// in order, however often it resizes or pings in between.
pub proof fn law_no_heartbeat_response_is_lost(s: ControlState, events: Seq<ControlEventView>)
    ensures
        recorded_times(s.asked(events)) == response_times(events),
    decreases events.len(),
{
    if events.len() > 0 {
        let earlier = events.drop_last();
        law_no_heartbeat_response_is_lost(s, earlier);
        let last = events.last();
        lemma_step_records(s.after(earlier), last);
        lemma_recorded_times_add_up(s.asked(earlier), s.after(earlier).next(last).1);
        assert(seq![last].drop_last() =~= seq![]);
        reveal_with_fuel(response_times, 2);
    }
}

/// Every call of `step` on a connection does what comes of its event.
pub proof fn law_control_steps_as_stated(event: ControlEvent, actions: Vec<ControlAction>)
    ensures
        forall|session: &mut ControlSession| #[trigger]
            call_ensures(ControlSession::step, (session, event), actions) ==> {
                &&& final(session)@ == (*session)@.next(event@).0
                &&& actions@.len() == (*session)@.next(event@).1.len()
                &&& forall|i: int|
                    0 <= i < actions@.len() ==> (#[trigger] actions@[i])@ == (*session)@.next(
                        event@,
                    ).1[i]
            },
{
    assert forall|session: &mut ControlSession, i: int|
        call_ensures(ControlSession::step, (session, event), actions) && 0 <= i
            < actions@.len() implies (#[trigger] actions@[i])@ == #[trigger] (*session)@.next(
        event@,
    ).1[i] by {
        assert(actions_view(actions@)[i] == actions@[i]@);
    }
}

} // verus!
