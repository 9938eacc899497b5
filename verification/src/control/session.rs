//! The state machine of a control connection.

use vstd::prelude::*;

use crate::heartbeat::HeartbeatAction;

verus! {

/// Resizes that follow each other more closely than this are held back, so as
/// not to overwhelm the server.
pub const RESIZE_THROTTLE_MILLIS: u64 = 50;

pub const NANOS_PER_MILLI: u64 = 1_000_000;

/// The size of a terminal, in characters.
#[derive(Debug, PartialEq, Eq, Clone, Copy)]
pub struct Size {
    pub rows: usize,
    pub cols: usize,
}

/// A new size of a client's terminal.
#[derive(Debug, PartialEq, Eq)]
pub struct Resize {
    pub web_client_id: String,
    pub size: Size,
}

/// The mathematical counterpart of [`Resize`].
pub struct ResizeView {
    pub web_client_id: Seq<char>,
    pub size: Size,
}

impl View for Resize {
    type V = ResizeView;

    open spec fn view(&self) -> ResizeView {
        ResizeView { web_client_id: self.web_client_id@, size: self.size }
    }
}

/// What a client says on its control connection.
#[derive(Debug, PartialEq, Eq, Clone, Copy)]
pub enum ControlPayload {
    TerminalResize(Size),
    HeartbeatResponse,
}

/// What happens on a control connection.
#[derive(Debug, PartialEq, Eq)]
pub enum ControlEvent {
    /// The client sent a message. `owned` says whether the client identity that
    /// it names belongs to the session token of the connection. `timestamp` is
    /// in seconds since the Unix epoch, `now` in nanoseconds of a clock that
    /// does not go back.
    Message {
        web_client_id: String,
        payload: ControlPayload,
        owned: bool,
        timestamp: u64,
        now: u64,
    },
    /// The client sent a text that is no message.
    Malformed,
    Ping(Vec<u8>),
    Pong,
    /// The client sent something else.
    Unsupported,
    /// The client closed the connection.
    Close,
    /// The connection broke off.
    Ended,
    /// The client was silent for longer than it may be.
    TimedOut,
}

/// The mathematical counterpart of [`ControlEvent`].
pub enum ControlEventView {
    Message {
        web_client_id: Seq<char>,
        payload: ControlPayload,
        owned: bool,
        timestamp: u64,
        now: u64,
    },
    Malformed,
    Ping(Seq<u8>),
    Pong,
    Unsupported,
    Close,
    Ended,
    TimedOut,
}

impl View for ControlEvent {
    type V = ControlEventView;

    open spec fn view(&self) -> ControlEventView {
        match *self {
            ControlEvent::Message {
                web_client_id,
                payload,
                owned,
                timestamp,
                now,
            } => ControlEventView::Message {
                web_client_id: web_client_id@,
                payload,
                owned,
                timestamp,
                now,
            },
            ControlEvent::Malformed => ControlEventView::Malformed,
            ControlEvent::Ping(payload) => ControlEventView::Ping(payload@),
            ControlEvent::Pong => ControlEventView::Pong,
            ControlEvent::Unsupported => ControlEventView::Unsupported,
            ControlEvent::Close => ControlEventView::Close,
            ControlEvent::Ended => ControlEventView::Ended,
            ControlEvent::TimedOut => ControlEventView::TimedOut,
        }
    }
}

/// What a control connection calls for.
#[derive(Debug, PartialEq, Eq)]
pub enum ControlAction {
    /// Send the configuration to the client.
    SendConfig,
    /// Start sending heartbeats.
    StartHeartbeat,
    /// Let this client be told things by way of the connection.
    RegisterControlChannel { web_client_id: String },
    /// The client responded to a heartbeat at this time.
    RecordHeartbeat { timestamp: u64 },
    /// Give up the resize that was put off.
    CancelPendingResize,
    /// Pass a resize on to the server after a delay, unless it is given up.
    ScheduleResize { resize: Resize, delay_millis: u64 },
    /// Pass a resize on to the server.
    ForwardResize(Resize),
    SendPong(Vec<u8>),
    /// Stop sending heartbeats.
    CancelHeartbeat,
    /// Close the client's socket.
    CloseSocket,
}

/// The mathematical counterpart of [`ControlAction`].
pub enum ControlActionView {
    SendConfig,
    StartHeartbeat,
    RegisterControlChannel { web_client_id: Seq<char> },
    RecordHeartbeat { timestamp: u64 },
    CancelPendingResize,
    ScheduleResize { resize: ResizeView, delay_millis: u64 },
    ForwardResize(ResizeView),
    SendPong(Seq<u8>),
    CancelHeartbeat,
    CloseSocket,
}

impl View for ControlAction {
    type V = ControlActionView;

    open spec fn view(&self) -> ControlActionView {
        match *self {
            ControlAction::SendConfig => ControlActionView::SendConfig,
            ControlAction::StartHeartbeat => ControlActionView::StartHeartbeat,
            ControlAction::RegisterControlChannel {
                web_client_id,
            } => ControlActionView::RegisterControlChannel { web_client_id: web_client_id@ },
            ControlAction::RecordHeartbeat { timestamp } => ControlActionView::RecordHeartbeat {
                timestamp,
            },
            ControlAction::CancelPendingResize => ControlActionView::CancelPendingResize,
            ControlAction::ScheduleResize { resize, delay_millis } => {
                ControlActionView::ScheduleResize { resize: resize@, delay_millis }
            },
            ControlAction::ForwardResize(resize) => ControlActionView::ForwardResize(resize@),
            ControlAction::SendPong(payload) => ControlActionView::SendPong(payload@),
            ControlAction::CancelHeartbeat => ControlActionView::CancelHeartbeat,
            ControlAction::CloseSocket => ControlActionView::CloseSocket,
        }
    }
}

/// The views of a sequence of actions.
pub open spec fn actions_view(actions: Seq<ControlAction>) -> Seq<ControlActionView> {
    actions.map_values(|a: ControlAction| a@)
}

/// The state of a control connection.
pub struct ControlState {
    /// A client was registered to be told things by way of the connection.
    pub registered: bool,
    /// When a resize was last passed on without delay.
    pub last_resize_at: Option<u64>,
    /// The resize that was put off last, and not given up since.
    pub pending: Option<ResizeView>,
    pub closed: bool,
}

/// What a new connection calls for: the client is told the configuration before
/// anything else.
pub open spec fn opening() -> Seq<ControlActionView> {
    seq![ControlActionView::SendConfig, ControlActionView::StartHeartbeat]
}

/// What an action of the heartbeat is to the connection: it is an event if the
/// heartbeat stops because of a timeout.
pub open spec fn heartbeat_event(action: HeartbeatAction) -> Option<ControlEventView> {
    match action {
        HeartbeatAction::Stop { timed_out: Some(_) } => Some(ControlEventView::TimedOut),
        _ => None,
    }
}

/// The nanoseconds from `then` to `now`.
pub open spec fn elapsed_nanos(now: u64, then: u64) -> int {
    if now >= then {
        now - then
    } else {
        0
    }
}

impl ControlState {
    /// The state of a new connection.
    pub open spec fn initial() -> Self {
        ControlState { registered: false, last_resize_at: None, pending: None, closed: false }
    }

    /// A resize at `now` comes too soon after the last one.
    pub open spec fn throttled(self, now: u64) -> bool {
        self.last_resize_at matches Some(then) && elapsed_nanos(now, then) < RESIZE_THROTTLE_MILLIS
            * NANOS_PER_MILLI
    }

    /// The first message of a client registers it.
    pub open spec fn registration(self, web_client_id: Seq<char>) -> Seq<ControlActionView> {
        if self.registered {
            seq![]
        } else {
            seq![ControlActionView::RegisterControlChannel { web_client_id }]
        }
    }

    pub open spec fn cancellation(self) -> Seq<ControlActionView> {
        if self.pending is Some {
            seq![ControlActionView::CancelPendingResize]
        } else {
            seq![]
        }
    }

    /// A resize of the client's own terminal takes the place of one that was put
    /// off. It is passed on at once, or put off itself if it comes too soon.
    pub open spec fn resize(self, resize: ResizeView, now: u64) -> (Self, Seq<ControlActionView>) {
        if self.throttled(now) {
            (
                ControlState { pending: Some(resize), ..self },
                self.cancellation() + seq![
                    ControlActionView::ScheduleResize {
                        resize,
                        delay_millis: RESIZE_THROTTLE_MILLIS,
                    },
                ],
            )
        } else {
            (
                ControlState { pending: None, last_resize_at: Some(now), ..self },
                self.cancellation() + seq![ControlActionView::ForwardResize(resize)],
            )
        }
    }

    /// A message ends the connection if it names a client identity that does not
    /// belong to it. The heartbeat then goes on until it fails by itself.
    pub open spec fn message(
        self,
        web_client_id: Seq<char>,
        payload: ControlPayload,
        owned: bool,
        timestamp: u64,
        now: u64,
    ) -> (Self, Seq<ControlActionView>) {
        if !owned {
            (ControlState { closed: true, ..self }, seq![])
        } else {
            let known = ControlState { registered: true, ..self };
            match payload {
                ControlPayload::HeartbeatResponse => (
                    known,
                    self.registration(web_client_id) + seq![
                        ControlActionView::RecordHeartbeat { timestamp },
                    ],
                ),
                ControlPayload::TerminalResize(size) => {
                    let (next, actions) = known.resize(ResizeView { web_client_id, size }, now);
                    (next, self.registration(web_client_id) + actions)
                },
            }
        }
    }

    /// The next state of an open connection, and the actions that it calls for.
    pub open spec fn next(self, event: ControlEventView) -> (Self, Seq<ControlActionView>) {
        match event {
            ControlEventView::Message { web_client_id, payload, owned, timestamp, now } => {
                self.message(web_client_id, payload, owned, timestamp, now)
            },
            ControlEventView::Malformed
            | ControlEventView::Pong
            | ControlEventView::Unsupported => (self, seq![]),
            ControlEventView::Ping(payload) => (self, seq![ControlActionView::SendPong(payload)]),
            ControlEventView::Close => (
                ControlState { pending: None, closed: true, ..self },
                seq![ControlActionView::CancelHeartbeat] + self.cancellation(),
            ),
            ControlEventView::Ended => (
                ControlState { closed: true, ..self },
                seq![ControlActionView::CancelHeartbeat],
            ),
            ControlEventView::TimedOut => (
                ControlState { closed: true, ..self },
                seq![ControlActionView::CancelHeartbeat, ControlActionView::CloseSocket],
            ),
        }
    }
}

/// A control connection.
#[derive(Debug, PartialEq, Eq)]
pub struct ControlSession {
    pub registered: bool,
    pub last_resize_at: Option<u64>,
    pub pending: Option<Resize>,
    pub closed: bool,
}

impl View for ControlSession {
    type V = ControlState;

    open spec fn view(&self) -> ControlState {
        ControlState {
            registered: self.registered,
            last_resize_at: self.last_resize_at,
            pending: match self.pending {
                Some(resize) => Some(resize@),
                None => None,
            },
            closed: self.closed,
        }
    }
}

fn push(actions: &mut Vec<ControlAction>, action: ControlAction)
    ensures
        actions_view(final(actions)@) == actions_view(old(actions)@).push(action@),
{
    let ghost before = actions@;
    actions.push(action);
    assert(actions_view(actions@) =~= actions_view(before).push(action@));
}

/// The event that an action of the heartbeat is to the connection, if it is one.
pub fn event_of_heartbeat(action: &HeartbeatAction) -> (r: Option<ControlEvent>)
    ensures
        r is Some <==> heartbeat_event(*action) is Some,
        r matches Some(event) ==> heartbeat_event(*action) == Some(event@),
{
    match action {
        HeartbeatAction::Stop { timed_out: Some(_) } => Some(ControlEvent::TimedOut),
        _ => None,
    }
}

impl ControlSession {
    /// A new connection, and what is to be done first, in order.
    pub fn open() -> (r: (Self, Vec<ControlAction>))
        ensures
            r.0@ == ControlState::initial(),
            actions_view(r.1@) == opening(),
    {
        let session = ControlSession {
            registered: false,
            last_resize_at: None,
            pending: None,
            closed: false,
        };
        let mut actions: Vec<ControlAction> = Vec::new();
        push(&mut actions, ControlAction::SendConfig);
        push(&mut actions, ControlAction::StartHeartbeat);
        (session, actions)
    }

    /// Whether the connection has come to its end.
    pub fn is_closed(&self) -> (r: bool)
        ensures
            r == self@.closed,
    {
        self.closed
    }

    fn is_throttled(&self, now: u64) -> (r: bool)
        ensures
            r == self@.throttled(now),
    {
        match self.last_resize_at {
            Some(then) => now.saturating_sub(then) < RESIZE_THROTTLE_MILLIS * NANOS_PER_MILLI,
            None => false,
        }
    }

    fn cancel_pending(&mut self, actions: &mut Vec<ControlAction>)
        ensures
            final(self)@ == (ControlState { pending: None, ..old(self)@ }),
            actions_view(final(actions)@) == actions_view(old(actions)@) + old(
                self,
            )@.cancellation(),
    {
        if self.pending.is_some() {
            self.pending = None;
            push(actions, ControlAction::CancelPendingResize);
        }
    }

    fn resize(&mut self, web_client_id: String, size: Size, now: u64, actions: &mut Vec<
        ControlAction,
    >)
        ensures
            final(self)@ == old(self)@.resize(
                ResizeView { web_client_id: web_client_id@, size },
                now,
            ).0,
            actions_view(final(actions)@) == actions_view(old(actions)@) + old(self)@.resize(
                ResizeView { web_client_id: web_client_id@, size },
                now,
            ).1,
    {
        self.cancel_pending(actions);
        if self.is_throttled(now) {
            let resize = Resize { web_client_id: web_client_id.clone(), size };
            self.pending = Some(Resize { web_client_id, size });
            push(
                actions,
                ControlAction::ScheduleResize { resize, delay_millis: RESIZE_THROTTLE_MILLIS },
            );
        } else {
            self.last_resize_at = Some(now);
            push(actions, ControlAction::ForwardResize(Resize { web_client_id, size }));
        }
    }

    /// Takes in what happened, and answers with what is to be done, in order.
    pub fn step(&mut self, event: ControlEvent) -> (actions: Vec<ControlAction>)
        requires
            !old(self)@.closed,
        ensures
            final(self)@ == old(self)@.next(event@).0,
            actions_view(actions@) == old(self)@.next(event@).1,
    {
        let mut actions: Vec<ControlAction> = Vec::new();
        match event {
            ControlEvent::Message { web_client_id, payload, owned, timestamp, now } => {
                if !owned {
                    self.closed = true;
                    return actions;
                }
                if !self.registered {
                    self.registered = true;
                    push(
                        &mut actions,
                        ControlAction::RegisterControlChannel {
                            web_client_id: web_client_id.clone(),
                        },
                    );
                }
                match payload {
                    ControlPayload::HeartbeatResponse => {
                        push(&mut actions, ControlAction::RecordHeartbeat { timestamp });
                    },
                    ControlPayload::TerminalResize(size) => {
                        self.resize(web_client_id, size, now, &mut actions);
                    },
                }
            },
            ControlEvent::Malformed | ControlEvent::Pong | ControlEvent::Unsupported => {},
            ControlEvent::Ping(payload) => {
                push(&mut actions, ControlAction::SendPong(payload));
            },
            ControlEvent::Close => {
                push(&mut actions, ControlAction::CancelHeartbeat);
                self.cancel_pending(&mut actions);
                self.closed = true;
            },
            ControlEvent::Ended => {
                push(&mut actions, ControlAction::CancelHeartbeat);
                self.closed = true;
            },
            ControlEvent::TimedOut => {
                push(&mut actions, ControlAction::CancelHeartbeat);
                push(&mut actions, ControlAction::CloseSocket);
                self.closed = true;
            },
        }
        actions
    }
}

/// The view of an event holds all of it.
pub proof fn law_control_event_view_holds_everything(event: ControlEvent)
    ensures
        match event {
            ControlEvent::Message { web_client_id, payload, owned, timestamp, now } => {
                event@ matches ControlEventView::Message {
                    web_client_id: id,
                    payload: p,
                    owned: o,
                    timestamp: ts,
                    now: n,
                } && id == web_client_id@ && p == payload && o == owned && ts == timestamp && n
                    == now
            },
            ControlEvent::Malformed => event@ is Malformed,
            ControlEvent::Ping(payload) => event@ == ControlEventView::Ping(payload@),
            ControlEvent::Pong => event@ is Pong,
            ControlEvent::Unsupported => event@ is Unsupported,
            ControlEvent::Close => event@ is Close,
            ControlEvent::Ended => event@ is Ended,
            ControlEvent::TimedOut => event@ is TimedOut,
        },
{
}

/// The view of an action holds all of it.
pub proof fn law_control_action_view_holds_everything(action: ControlAction)
    ensures
        match action {
            ControlAction::SendConfig => action@ is SendConfig,
            ControlAction::StartHeartbeat => action@ is StartHeartbeat,
            ControlAction::RegisterControlChannel { web_client_id } => {
                action@ matches ControlActionView::RegisterControlChannel { web_client_id: id }
                    && id == web_client_id@
            },
            ControlAction::RecordHeartbeat { timestamp } => {
                action@ matches ControlActionView::RecordHeartbeat { timestamp: ts } && ts
                    == timestamp
            },
            ControlAction::CancelPendingResize => action@ is CancelPendingResize,
            ControlAction::ScheduleResize { resize, delay_millis } => {
                action@ matches ControlActionView::ScheduleResize { resize: r, delay_millis: d }
                    && r.web_client_id == resize.web_client_id@ && r.size == resize.size && d
                    == delay_millis
            },
            ControlAction::ForwardResize(resize) => {
                action@ matches ControlActionView::ForwardResize(r) && r.web_client_id
                    == resize.web_client_id@ && r.size == resize.size
            },
            ControlAction::SendPong(payload) => action@ == ControlActionView::SendPong(payload@),
            ControlAction::CancelHeartbeat => action@ is CancelHeartbeat,
            ControlAction::CloseSocket => action@ is CloseSocket,
        },
{
}

/// The view of a connection holds all of it.
pub proof fn law_control_session_view_holds_everything(session: ControlSession)
    ensures
        session@.registered == session.registered,
        session@.last_resize_at == session.last_resize_at,
        session@.closed == session.closed,
        session@.pending is Some <==> session.pending is Some,
        session.pending matches Some(resize) ==> session@.pending->0.web_client_id
            == resize.web_client_id@ && session@.pending->0.size == resize.size,
{
}

/// The views of actions are as many as the actions, and in the same order.
pub proof fn law_control_actions_are_viewed_in_order(actions: Seq<ControlAction>)
    ensures
        actions_view(actions).len() == actions.len(),
        forall|i: int|
            0 <= i < actions.len() ==> #[trigger] actions_view(actions)[i] == actions[i]@,
{
}

} // verus!
