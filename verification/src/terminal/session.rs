//! The state machine of a terminal connection.

use vstd::pervasive::unreached;
use vstd::prelude::*;
use vstd::string::StrSliceExecFns;
use vstd::utf8::encode_utf8;

verus! {

/// What happens on a terminal connection.
#[derive(Debug, PartialEq, Eq)]
pub enum TerminalEvent {
    /// It is known whether the client identity that the connection was made for
    /// belongs to the session token of the connection.
    OwnershipChecked(bool),
    /// It is known whether there is such a client.
    ClientLookedUp(bool),
    /// The configuration says whether the keyboard protocol is supported.
    KeyboardConfigured(Option<bool>),
    /// The client is attached to a session, or will not be.
    AttachmentSettled,
    /// The client sent bytes. `client_known` says whether there still is such a
    /// client.
    Binary { data: Vec<u8>, client_known: bool },
    /// The client sent text.
    Text { text: String, client_known: bool },
    Ping(Vec<u8>),
    Pong,
    /// The client closed the connection.
    Close,
    /// The connection broke off.
    Ended,
}

/// The mathematical counterpart of [`TerminalEvent`].
pub enum TerminalEventView {
    OwnershipChecked(bool),
    ClientLookedUp(bool),
    KeyboardConfigured(Option<bool>),
    AttachmentSettled,
    Binary { data: Seq<u8>, client_known: bool },
    Text { text: Seq<char>, client_known: bool },
    Ping(Seq<u8>),
    Pong,
    Close,
    Ended,
}

impl View for TerminalEvent {
    type V = TerminalEventView;

    open spec fn view(&self) -> TerminalEventView {
        match *self {
            TerminalEvent::OwnershipChecked(owned) => TerminalEventView::OwnershipChecked(owned),
            TerminalEvent::ClientLookedUp(known) => TerminalEventView::ClientLookedUp(known),
            TerminalEvent::KeyboardConfigured(support) => {
                TerminalEventView::KeyboardConfigured(support)
            },
            TerminalEvent::AttachmentSettled => TerminalEventView::AttachmentSettled,
            TerminalEvent::Binary { data, client_known } => TerminalEventView::Binary {
                data: data@,
                client_known,
            },
            TerminalEvent::Text { text, client_known } => TerminalEventView::Text {
                text: text@,
                client_known,
            },
            TerminalEvent::Ping(payload) => TerminalEventView::Ping(payload@),
            TerminalEvent::Pong => TerminalEventView::Pong,
            TerminalEvent::Close => TerminalEventView::Close,
            TerminalEvent::Ended => TerminalEventView::Ended,
        }
    }
}

/// What a terminal connection calls for.
#[derive(Debug, PartialEq, Eq)]
pub enum TerminalAction {
    /// Find out whether there is such a client.
    LookUpClient,
    /// Let the client's output go out by way of the connection.
    RegisterTerminalChannel,
    /// Start listening to the server.
    StartListener,
    /// Start passing the output on.
    StartRendering,
    /// Let the connection be closed from elsewhere.
    RegisterCancellation,
    /// Find out what the configuration says of the keyboard protocol.
    ReadKeyboardConfig,
    /// Wait until the client is attached to a session, or will not be.
    AwaitAttachment,
    /// Hand input to the parsers.
    ParseInput { data: Vec<u8>, kitty_keyboard_disabled: bool },
    SendPong(Vec<u8>),
    /// Forget the client.
    RemoveClient,
    /// Tell the server that the client is gone.
    SendClientExited,
}

/// The mathematical counterpart of [`TerminalAction`].
pub enum TerminalActionView {
    LookUpClient,
    RegisterTerminalChannel,
    StartListener,
    StartRendering,
    RegisterCancellation,
    ReadKeyboardConfig,
    AwaitAttachment,
    ParseInput { data: Seq<u8>, kitty_keyboard_disabled: bool },
    SendPong(Seq<u8>),
    RemoveClient,
    SendClientExited,
}

impl View for TerminalAction {
    type V = TerminalActionView;

    open spec fn view(&self) -> TerminalActionView {
        match *self {
            TerminalAction::LookUpClient => TerminalActionView::LookUpClient,
            TerminalAction::RegisterTerminalChannel => TerminalActionView::RegisterTerminalChannel,
            TerminalAction::StartListener => TerminalActionView::StartListener,
            TerminalAction::StartRendering => TerminalActionView::StartRendering,
            TerminalAction::RegisterCancellation => TerminalActionView::RegisterCancellation,
            TerminalAction::ReadKeyboardConfig => TerminalActionView::ReadKeyboardConfig,
            TerminalAction::AwaitAttachment => TerminalActionView::AwaitAttachment,
            TerminalAction::ParseInput { data, kitty_keyboard_disabled } => {
                TerminalActionView::ParseInput { data: data@, kitty_keyboard_disabled }
            },
            TerminalAction::SendPong(payload) => TerminalActionView::SendPong(payload@),
            TerminalAction::RemoveClient => TerminalActionView::RemoveClient,
            TerminalAction::SendClientExited => TerminalActionView::SendClientExited,
        }
    }
}

/// The views of a sequence of actions.
pub open spec fn actions_view(actions: Seq<TerminalAction>) -> Seq<TerminalActionView> {
    actions.map_values(|a: TerminalAction| a@)
}

/// The stages of a terminal connection.
#[derive(Debug, PartialEq, Eq, Clone, Copy)]
pub enum TerminalState {
    /// It is not known yet whether the client identity is the connection's own.
    Unverified,
    /// It is, and it is not known yet whether there is such a client.
    Owned,
    /// There is, and the connection is being set up.
    SettingUp,
    /// The client is being attached to a session.
    Attaching { kitty_keyboard_disabled: bool },
    /// Input is taken.
    Running { kitty_keyboard_disabled: bool },
    /// The connection was not let in.
    Refused,
    /// The connection has come to its end.
    Finished,
}

/// The keyboard protocol is off only if the configuration says so.
pub open spec fn disables_kitty_keyboard(support: Option<bool>) -> bool {
    support == Some(false)
}

impl TerminalState {
    /// Nothing more happens on the connection.
    pub open spec fn is_over(self) -> bool {
        self is Refused || self is Finished
    }

    /// The event can happen at this stage.
    pub open spec fn accepts(self, event: TerminalEventView) -> bool {
        match self {
            TerminalState::Unverified => event is OwnershipChecked,
            TerminalState::Owned => event is ClientLookedUp,
            TerminalState::SettingUp => event is KeyboardConfigured,
            TerminalState::Attaching { .. } => event is AttachmentSettled,
            TerminalState::Running { .. } => match event {
                TerminalEventView::Binary { .. }
                | TerminalEventView::Text { .. }
                | TerminalEventView::Ping(_)
                | TerminalEventView::Pong
                | TerminalEventView::Close
                | TerminalEventView::Ended => true,
                _ => false,
            },
            TerminalState::Refused | TerminalState::Finished => false,
        }
    }

    /// What a running connection does with input: the input of a client that is
    /// not known any more is dropped.
    pub open spec fn input(
        kitty_keyboard_disabled: bool,
        data: Seq<u8>,
        client_known: bool,
    ) -> Seq<TerminalActionView> {
        if client_known {
            seq![TerminalActionView::ParseInput { data, kitty_keyboard_disabled }]
        } else {
            seq![]
        }
    }

    /// The next stage, and the actions that are called for.
    pub open spec fn next(self, event: TerminalEventView) -> (Self, Seq<TerminalActionView>)
        recommends
            self.accepts(event),
    {
        match (self, event) {
            (TerminalState::Unverified, TerminalEventView::OwnershipChecked(owned)) => {
                if owned {
                    (TerminalState::Owned, seq![TerminalActionView::LookUpClient])
                } else {
                    (TerminalState::Refused, seq![])
                }
            },
            (TerminalState::Owned, TerminalEventView::ClientLookedUp(known)) => {
                if known {
                    (
                        TerminalState::SettingUp,
                        seq![
                            TerminalActionView::RegisterTerminalChannel,
                            TerminalActionView::StartListener,
                            TerminalActionView::StartRendering,
                            TerminalActionView::RegisterCancellation,
                            TerminalActionView::ReadKeyboardConfig,
                        ],
                    )
                } else {
                    (TerminalState::Refused, seq![])
                }
            },
            (TerminalState::SettingUp, TerminalEventView::KeyboardConfigured(support)) => (
                TerminalState::Attaching {
                    kitty_keyboard_disabled: disables_kitty_keyboard(support),
                },
                seq![TerminalActionView::AwaitAttachment],
            ),
            (TerminalState::Attaching { kitty_keyboard_disabled }, _) => (
                TerminalState::Running { kitty_keyboard_disabled },
                seq![],
            ),
            (TerminalState::Running { kitty_keyboard_disabled }, _) => match event {
                TerminalEventView::Binary { data, client_known } => (
                    self,
                    Self::input(kitty_keyboard_disabled, data, client_known),
                ),
                TerminalEventView::Text { text, client_known } => (
                    self,
                    Self::input(kitty_keyboard_disabled, encode_utf8(text), client_known),
                ),
                TerminalEventView::Ping(payload) => (
                    self,
                    seq![TerminalActionView::SendPong(payload)],
                ),
                TerminalEventView::Close => (
                    TerminalState::Finished,
                    seq![TerminalActionView::RemoveClient, TerminalActionView::SendClientExited],
                ),
                TerminalEventView::Ended => (
                    TerminalState::Finished,
                    seq![TerminalActionView::SendClientExited],
                ),
                _ => (self, seq![]),
            },
            _ => (self, seq![]),
        }
    }
}

/// Whether the keyboard protocol is explicitly disabled.
pub fn kitty_keyboard_disabled(support: Option<bool>) -> (r: bool)
    ensures
        r == disables_kitty_keyboard(support),
{
    match support {
        Some(supported) => !supported,
        None => false,
    }
}

fn input_actions(data: Vec<u8>, client_known: bool, kitty_keyboard_disabled: bool) -> (r: Vec<
    TerminalAction,
>)
    ensures
        actions_view(r@) == TerminalState::input(kitty_keyboard_disabled, data@, client_known),
{
    if client_known {
        vec![TerminalAction::ParseInput { data, kitty_keyboard_disabled }]
    } else {
        vec![]
    }
}

impl TerminalState {
    /// A connection on which nothing has happened yet.
    pub fn new() -> (r: Self)
        ensures
            r == TerminalState::Unverified,
    {
        TerminalState::Unverified
    }

    /// Whether `event` can happen at this stage.
    pub fn expects(&self, event: &TerminalEvent) -> (r: bool)
        ensures
            r == self.accepts(event@),
    {
        match (self, event) {
            (TerminalState::Unverified, TerminalEvent::OwnershipChecked(_)) => true,
            (TerminalState::Owned, TerminalEvent::ClientLookedUp(_)) => true,
            (TerminalState::SettingUp, TerminalEvent::KeyboardConfigured(_)) => true,
            (TerminalState::Attaching { .. }, TerminalEvent::AttachmentSettled) => true,
            (TerminalState::Running { .. }, event) => match event {
                TerminalEvent::Binary { .. }
                | TerminalEvent::Text { .. }
                | TerminalEvent::Ping(_)
                | TerminalEvent::Pong
                | TerminalEvent::Close
                | TerminalEvent::Ended => true,
                _ => false,
            },
            _ => false,
        }
    }

    /// Whether nothing more happens on the connection.
    pub fn is_finished(&self) -> (r: bool)
        ensures
            r == self.is_over(),
    {
        match self {
            TerminalState::Refused | TerminalState::Finished => true,
            _ => false,
        }
    }

    /// What a running connection makes of an event.
    fn run(kitty_keyboard_disabled: bool, event: TerminalEvent) -> (r: (
        Self,
        Vec<TerminalAction>,
    ))
        requires
            (TerminalState::Running { kitty_keyboard_disabled }).accepts(event@),
        ensures
            r.0 == (TerminalState::Running { kitty_keyboard_disabled }).next(event@).0,
            actions_view(r.1@) == (TerminalState::Running { kitty_keyboard_disabled }).next(
                event@,
            ).1,
    {
        let running = TerminalState::Running { kitty_keyboard_disabled };
        match event {
            TerminalEvent::Binary { data, client_known } => {
                (running, input_actions(data, client_known, kitty_keyboard_disabled))
            },
            TerminalEvent::Text { text, client_known } => {
                let data = text.as_str().as_bytes_vec();
                (running, input_actions(data, client_known, kitty_keyboard_disabled))
            },
            TerminalEvent::Ping(payload) => (running, vec![TerminalAction::SendPong(payload)]),
            TerminalEvent::Pong => (running, vec![]),
            TerminalEvent::Close => (
                TerminalState::Finished,
                vec![TerminalAction::RemoveClient, TerminalAction::SendClientExited],
            ),
            TerminalEvent::Ended => (
                TerminalState::Finished,
                vec![TerminalAction::SendClientExited],
            ),
            _ => unreached(),
        }
    }

    /// Takes in what happened, and answers with the next stage and with what is
    /// to be done, in order.
    pub fn step(self, event: TerminalEvent) -> (r: (Self, Vec<TerminalAction>))
        requires
            self.accepts(event@),
        ensures
            r.0 == self.next(event@).0,
            actions_view(r.1@) == self.next(event@).1,
    {
        match (self, event) {
            (TerminalState::Unverified, TerminalEvent::OwnershipChecked(owned)) => {
                if owned {
                    (TerminalState::Owned, vec![TerminalAction::LookUpClient])
                } else {
                    (TerminalState::Refused, vec![])
                }
            },
            (TerminalState::Owned, TerminalEvent::ClientLookedUp(known)) => {
                if known {
                    (
                        TerminalState::SettingUp,
                        vec![
                            TerminalAction::RegisterTerminalChannel,
                            TerminalAction::StartListener,
                            TerminalAction::StartRendering,
                            TerminalAction::RegisterCancellation,
                            TerminalAction::ReadKeyboardConfig,
                        ],
                    )
                } else {
                    (TerminalState::Refused, vec![])
                }
            },
            (TerminalState::SettingUp, TerminalEvent::KeyboardConfigured(support)) => (
                TerminalState::Attaching {
                    kitty_keyboard_disabled: kitty_keyboard_disabled(support),
                },
                vec![TerminalAction::AwaitAttachment],
            ),
            (TerminalState::Attaching { kitty_keyboard_disabled }, _) => (
                TerminalState::Running { kitty_keyboard_disabled },
                vec![],
            ),
            (TerminalState::Running { kitty_keyboard_disabled }, event) => Self::run(
                kitty_keyboard_disabled,
                event,
            ),
            _ => unreached(),
        }
    }
}

/// The view of an event holds all of it.
pub proof fn law_terminal_event_view_holds_everything(event: TerminalEvent)
    ensures
        match event {
            TerminalEvent::OwnershipChecked(owned) => event@
                == TerminalEventView::OwnershipChecked(owned),
            TerminalEvent::ClientLookedUp(known) => event@ == TerminalEventView::ClientLookedUp(
                known,
            ),
            TerminalEvent::KeyboardConfigured(support) => event@
                == TerminalEventView::KeyboardConfigured(support),
            TerminalEvent::AttachmentSettled => event@ is AttachmentSettled,
            TerminalEvent::Binary { data, client_known } => {
                event@ matches TerminalEventView::Binary { data: d, client_known: k } && d == data@
                    && k == client_known
            },
            TerminalEvent::Text { text, client_known } => {
                event@ matches TerminalEventView::Text { text: t, client_known: k } && t == text@
                    && k == client_known
            },
            TerminalEvent::Ping(payload) => event@ == TerminalEventView::Ping(payload@),
            TerminalEvent::Pong => event@ is Pong,
            TerminalEvent::Close => event@ is Close,
            TerminalEvent::Ended => event@ is Ended,
        },
{
}

/// The view of an action holds all of it.
pub proof fn law_terminal_action_view_holds_everything(action: TerminalAction)
    ensures
        match action {
            TerminalAction::LookUpClient => action@ is LookUpClient,
            TerminalAction::RegisterTerminalChannel => action@ is RegisterTerminalChannel,
            TerminalAction::StartListener => action@ is StartListener,
            TerminalAction::StartRendering => action@ is StartRendering,
            TerminalAction::RegisterCancellation => action@ is RegisterCancellation,
            TerminalAction::ReadKeyboardConfig => action@ is ReadKeyboardConfig,
            TerminalAction::AwaitAttachment => action@ is AwaitAttachment,
            TerminalAction::ParseInput { data, kitty_keyboard_disabled } => {
                action@ matches TerminalActionView::ParseInput {
                    data: d,
                    kitty_keyboard_disabled: k,
                } && d == data@ && k == kitty_keyboard_disabled
            },
            TerminalAction::SendPong(payload) => action@ == TerminalActionView::SendPong(payload@),
            TerminalAction::RemoveClient => action@ is RemoveClient,
            TerminalAction::SendClientExited => action@ is SendClientExited,
        },
{
}

/// The keyboard protocol is off if the configuration turns it off, and not if the
/// configuration turns it on or says nothing.
pub proof fn law_when_the_keyboard_protocol_is_off()
    ensures
        disables_kitty_keyboard(Some(false)),
        !disables_kitty_keyboard(Some(true)),
        !disables_kitty_keyboard(None),
{
}

/// The views of actions are as many as the actions, and in the same order.
pub proof fn law_terminal_actions_are_viewed_in_order(actions: Seq<TerminalAction>)
    ensures
        actions_view(actions).len() == actions.len(),
        forall|i: int|
            0 <= i < actions.len() ==> #[trigger] actions_view(actions)[i] == actions[i]@,
{
}

} // verus!
