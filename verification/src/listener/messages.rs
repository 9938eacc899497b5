//! What the listener is told and what it asks for.

use vstd::prelude::*;

use crate::notices::{ExitReason, ExitReasonView};

verus! {

/// The views of a sequence of strings.
pub open spec fn texts(strings: Seq<String>) -> Seq<Seq<char>> {
    strings.map_values(|s: String| s@)
}

/// The view of a string that may be missing.
pub open spec fn optional_text(s: Option<String>) -> Option<Seq<char>> {
    match s {
        Some(s) => Some(s@),
        None => None,
    }
}

/// The view of an outcome that explains its failure.
pub open spec fn outcome(r: Result<(), String>) -> Result<(), Seq<char>> {
    match r {
        Ok(_) => Ok(()),
        Err(e) => Err(e@),
    }
}

/// A session to attach to: its name, unless one is to be made up, and the
/// layout of type `L` to start it with, if it does not exist yet.
#[derive(Debug, PartialEq, Eq)]
pub struct ConnectToSession<L> {
    pub name: Option<String>,
    pub layout: Option<L>,
}

/// The mathematical counterpart of [`ConnectToSession`].
pub struct ConnectToSessionView<L> {
    pub name: Option<Seq<char>>,
    pub layout: Option<L>,
}

impl<L> View for ConnectToSession<L> {
    type V = ConnectToSessionView<L>;

    open spec fn view(&self) -> ConnectToSessionView<L> {
        ConnectToSessionView { name: optional_text(self.name), layout: self.layout }
    }
}

/// The view of a session that may not have been asked for.
pub open spec fn optional_session<L>(info: Option<ConnectToSession<L>>) -> Option<
    ConnectToSessionView<L>,
> {
    match info {
        Some(info) => Some(info@),
        None => None,
    }
}

/// A message of the session's server to the client.
#[derive(Debug, PartialEq, Eq)]
pub enum ServerMessage<L> {
    UnblockInputThread,
    Connected,
    CliPipeOutput,
    UnblockCliPipeInput,
    StartWebServer,
    PaneRenderUpdate,
    SubscribedPaneClosed,
    Exit { exit_reason: ExitReason },
    Render { content: String },
    SwitchSession { connect_to_session: ConnectToSession<L> },
    QueryTerminalSize,
    Log { lines: Vec<String> },
    LogError { lines: Vec<String> },
    RenamedSession { name: String },
    ConfigFileUpdated,
    ForwardQueryToHost { token: u64 },
}

/// The mathematical counterpart of [`ServerMessage`].
pub enum ServerMessageView<L> {
    UnblockInputThread,
    Connected,
    CliPipeOutput,
    UnblockCliPipeInput,
    StartWebServer,
    PaneRenderUpdate,
    SubscribedPaneClosed,
    Exit { exit_reason: ExitReasonView },
    Render { content: Seq<char> },
    SwitchSession { connect_to_session: ConnectToSessionView<L> },
    QueryTerminalSize,
    Log { lines: Seq<Seq<char>> },
    LogError { lines: Seq<Seq<char>> },
    RenamedSession { name: Seq<char> },
    ConfigFileUpdated,
    ForwardQueryToHost { token: u64 },
}

impl<L> View for ServerMessage<L> {
    type V = ServerMessageView<L>;

    open spec fn view(&self) -> ServerMessageView<L> {
        match *self {
            ServerMessage::UnblockInputThread => ServerMessageView::UnblockInputThread,
            ServerMessage::Connected => ServerMessageView::Connected,
            ServerMessage::CliPipeOutput => ServerMessageView::CliPipeOutput,
            ServerMessage::UnblockCliPipeInput => ServerMessageView::UnblockCliPipeInput,
            ServerMessage::StartWebServer => ServerMessageView::StartWebServer,
            ServerMessage::PaneRenderUpdate => ServerMessageView::PaneRenderUpdate,
            ServerMessage::SubscribedPaneClosed => ServerMessageView::SubscribedPaneClosed,
            ServerMessage::Exit { exit_reason } => ServerMessageView::Exit {
                exit_reason: exit_reason@,
            },
            ServerMessage::Render { content } => ServerMessageView::Render { content: content@ },
            ServerMessage::SwitchSession {
                connect_to_session,
            } => ServerMessageView::SwitchSession { connect_to_session: connect_to_session@ },
            ServerMessage::QueryTerminalSize => ServerMessageView::QueryTerminalSize,
            ServerMessage::Log { lines } => ServerMessageView::Log { lines: texts(lines@) },
            ServerMessage::LogError { lines } => ServerMessageView::LogError {
                lines: texts(lines@),
            },
            ServerMessage::RenamedSession { name } => ServerMessageView::RenamedSession {
                name: name@,
            },
            ServerMessage::ConfigFileUpdated => ServerMessageView::ConfigFileUpdated,
            ServerMessage::ForwardQueryToHost { token } => ServerMessageView::ForwardQueryToHost {
                token,
            },
        }
    }
}

/// What happened, as the listener is told.
#[derive(Debug, PartialEq, Eq)]
pub enum ListenerEvent<L> {
    /// The connection that the client asked for was worked out, or could not be.
    InitialConnection(Result<Option<ConnectToSession<L>>, String>),
    /// A session name was made up, or could not be.
    NameGenerated(Option<String>),
    /// The session name was checked.
    NameChecked(Result<(), String>),
    /// The session was looked up: the name that it goes by, whether the client may
    /// only read, and whether the session exists, if that is known.
    SessionInspected { session_name: String, is_read_only: bool, session_exists: Option<bool> },
    /// The session was started or attached to, or could not be.
    SessionSpawned(Result<(), String>),
    /// The server sent a message; `None` is one that could not be read.
    MessageReceived(Option<ServerMessage<L>>),
    /// The configuration file was read again, with success or not.
    ConfigReloaded(bool),
}

/// The mathematical counterpart of [`ListenerEvent`].
pub enum ListenerEventView<L> {
    InitialConnection(Result<Option<ConnectToSessionView<L>>, Seq<char>>),
    NameGenerated(Option<Seq<char>>),
    NameChecked(Result<(), Seq<char>>),
    SessionInspected { session_name: Seq<char>, is_read_only: bool, session_exists: Option<bool> },
    SessionSpawned(Result<(), Seq<char>>),
    MessageReceived(Option<ServerMessageView<L>>),
    ConfigReloaded(bool),
}

impl<L> View for ListenerEvent<L> {
    type V = ListenerEventView<L>;

    open spec fn view(&self) -> ListenerEventView<L> {
        match *self {
            ListenerEvent::InitialConnection(r) => ListenerEventView::InitialConnection(
                match r {
                    Ok(info) => Ok(optional_session(info)),
                    Err(e) => Err(e@),
                },
            ),
            ListenerEvent::NameGenerated(name) => ListenerEventView::NameGenerated(
                optional_text(name),
            ),
            ListenerEvent::NameChecked(r) => ListenerEventView::NameChecked(outcome(r)),
            ListenerEvent::SessionInspected {
                session_name,
                is_read_only,
                session_exists,
            } => ListenerEventView::SessionInspected {
                session_name: session_name@,
                is_read_only,
                session_exists,
            },
            ListenerEvent::SessionSpawned(r) => ListenerEventView::SessionSpawned(outcome(r)),
            ListenerEvent::MessageReceived(m) => ListenerEventView::MessageReceived(
                match m {
                    Some(m) => Some(m@),
                    None => None,
                },
            ),
            ListenerEvent::ConfigReloaded(ok) => ListenerEventView::ConfigReloaded(ok),
        }
    }
}

/// A message for the client's control channel.
#[derive(Debug, PartialEq, Eq)]
pub enum ControlNotice {
    QueryTerminalSize,
    Log { lines: Vec<String> },
    LogError { lines: Vec<String> },
    SwitchedSession { new_session_name: String },
}

/// The mathematical counterpart of [`ControlNotice`].
pub enum ControlNoticeView {
    QueryTerminalSize,
    Log { lines: Seq<Seq<char>> },
    LogError { lines: Seq<Seq<char>> },
    SwitchedSession { new_session_name: Seq<char> },
}

impl View for ControlNotice {
    type V = ControlNoticeView;

    open spec fn view(&self) -> ControlNoticeView {
        match *self {
            ControlNotice::QueryTerminalSize => ControlNoticeView::QueryTerminalSize,
            ControlNotice::Log { lines } => ControlNoticeView::Log { lines: texts(lines@) },
            ControlNotice::LogError { lines } => ControlNoticeView::LogError {
                lines: texts(lines@),
            },
            ControlNotice::SwitchedSession {
                new_session_name,
            } => ControlNoticeView::SwitchedSession { new_session_name: new_session_name@ },
        }
    }
}

/// What is to be done, as the listener asks.
#[derive(Debug, PartialEq, Eq)]
pub enum ListenerAction<L> {
    /// Make up a session name.
    GenerateName,
    /// Check whether this can be a session name.
    CheckName(String),
    /// Read the configuration again, then look up the session of this name.
    InspectSession(String),
    /// Start the session if it does not exist, and attach to it.
    SpawnSession {
        session_name: String,
        is_read_only: bool,
        session_exists: bool,
        should_create_new_session: bool,
        initial_layout: Option<L>,
    },
    /// Tell the server the colors of the configuration in use.
    SendHostQuerySeeds,
    /// Let the client's input through.
    SignalAttachmentComplete,
    /// Send to the client's control channel.
    SendControl(ControlNotice),
    /// Send to the client's terminal.
    SendStdout(String),
    /// Set up the client's terminal.
    SendTerminalInit,
    /// Read the configuration file again.
    ReloadConfig,
    /// Tell the server the colors of the configuration just read.
    SendReloadedSeeds,
    /// Send the configuration just read to the control channel of every client.
    BroadcastConfig,
    /// Answer a terminal query that the server passed on.
    ReplyFromHost { token: u64, reply_bytes: Vec<u8> },
    /// Tell the server that the client is gone.
    SendClientExited,
    /// Close the client's connection.
    CloseConnection,
    /// Close the connection of a client that was kicked out.
    CloseConnectionKicked,
}

/// The mathematical counterpart of [`ListenerAction`].
pub enum ListenerActionView<L> {
    GenerateName,
    CheckName(Seq<char>),
    InspectSession(Seq<char>),
    SpawnSession {
        session_name: Seq<char>,
        is_read_only: bool,
        session_exists: bool,
        should_create_new_session: bool,
        initial_layout: Option<L>,
    },
    SendHostQuerySeeds,
    SignalAttachmentComplete,
    SendControl(ControlNoticeView),
    SendStdout(Seq<char>),
    SendTerminalInit,
    ReloadConfig,
    SendReloadedSeeds,
    BroadcastConfig,
    ReplyFromHost { token: u64, reply_bytes: Seq<u8> },
    SendClientExited,
    CloseConnection,
    CloseConnectionKicked,
}

impl<L> View for ListenerAction<L> {
    type V = ListenerActionView<L>;

    open spec fn view(&self) -> ListenerActionView<L> {
        match *self {
            ListenerAction::GenerateName => ListenerActionView::GenerateName,
            ListenerAction::CheckName(name) => ListenerActionView::CheckName(name@),
            ListenerAction::InspectSession(name) => ListenerActionView::InspectSession(name@),
            ListenerAction::SpawnSession {
                session_name,
                is_read_only,
                session_exists,
                should_create_new_session,
                initial_layout,
            } => ListenerActionView::SpawnSession {
                session_name: session_name@,
                is_read_only,
                session_exists,
                should_create_new_session,
                initial_layout,
            },
            ListenerAction::SendHostQuerySeeds => ListenerActionView::SendHostQuerySeeds,
            ListenerAction::SignalAttachmentComplete => {
                ListenerActionView::SignalAttachmentComplete
            },
            ListenerAction::SendControl(notice) => ListenerActionView::SendControl(notice@),
            ListenerAction::SendStdout(text) => ListenerActionView::SendStdout(text@),
            ListenerAction::SendTerminalInit => ListenerActionView::SendTerminalInit,
            ListenerAction::ReloadConfig => ListenerActionView::ReloadConfig,
            ListenerAction::SendReloadedSeeds => ListenerActionView::SendReloadedSeeds,
            ListenerAction::BroadcastConfig => ListenerActionView::BroadcastConfig,
            ListenerAction::ReplyFromHost { token, reply_bytes } => {
                ListenerActionView::ReplyFromHost { token, reply_bytes: reply_bytes@ }
            },
            ListenerAction::SendClientExited => ListenerActionView::SendClientExited,
            ListenerAction::CloseConnection => ListenerActionView::CloseConnection,
            ListenerAction::CloseConnectionKicked => ListenerActionView::CloseConnectionKicked,
        }
    }
}

/// The views of a sequence of actions.
pub open spec fn actions_view<L>(actions: Seq<ListenerAction<L>>) -> Seq<ListenerActionView<L>> {
    actions.map_values(|a: ListenerAction<L>| a@)
}

/// The views of strings, of outcomes and of sessions asked for hold all of them.
pub proof fn law_parts_of_messages_are_viewed_in_full<L>(
    strings: Seq<String>,
    text: String,
    info: ConnectToSession<L>,
)
    ensures
        texts(strings).len() == strings.len(),
        forall|i: int| 0 <= i < strings.len() ==> #[trigger] texts(strings)[i] == strings[i]@,
        optional_text(Some(text)) == Some(text@),
        optional_text(None) is None,
        outcome(Ok(())) is Ok,
        outcome(Err(text)) == Err::<(), Seq<char>>(text@),
        info@.layout == info.layout,
        info@.name is Some <==> info.name is Some,
        info.name matches Some(name) ==> info@.name->0 == name@,
        optional_session(Some(info)) == Some(info@),
        optional_session(None::<ConnectToSession<L>>) is None,
{
}

/// The view of a message holds all of it.
pub proof fn law_server_message_view_holds_everything<L>(message: ServerMessage<L>)
    ensures
        match message {
            ServerMessage::UnblockInputThread => message@ is UnblockInputThread,
            ServerMessage::Connected => message@ is Connected,
            ServerMessage::CliPipeOutput => message@ is CliPipeOutput,
            ServerMessage::UnblockCliPipeInput => message@ is UnblockCliPipeInput,
            ServerMessage::StartWebServer => message@ is StartWebServer,
            ServerMessage::PaneRenderUpdate => message@ is PaneRenderUpdate,
            ServerMessage::SubscribedPaneClosed => message@ is SubscribedPaneClosed,
            ServerMessage::Exit { exit_reason } => {
                message@ matches ServerMessageView::Exit { exit_reason: r } && r == exit_reason@
            },
            ServerMessage::Render { content } => {
                message@ matches ServerMessageView::Render { content: c } && c == content@
            },
            ServerMessage::SwitchSession { connect_to_session } => {
                message@ matches ServerMessageView::SwitchSession { connect_to_session: c } && c
                    == connect_to_session@
            },
            ServerMessage::QueryTerminalSize => message@ is QueryTerminalSize,
            ServerMessage::Log { lines } => {
                message@ matches ServerMessageView::Log { lines: l } && l == texts(lines@)
            },
            ServerMessage::LogError { lines } => {
                message@ matches ServerMessageView::LogError { lines: l } && l == texts(lines@)
            },
            ServerMessage::RenamedSession { name } => {
                message@ matches ServerMessageView::RenamedSession { name: n } && n == name@
            },
            ServerMessage::ConfigFileUpdated => message@ is ConfigFileUpdated,
            ServerMessage::ForwardQueryToHost { token } => {
                message@ matches ServerMessageView::ForwardQueryToHost { token: t } && t == token
            },
        },
{
}

/// The view of an event holds all of it.
pub proof fn law_listener_event_view_holds_everything<L>(event: ListenerEvent<L>)
    ensures
        match event {
            ListenerEvent::InitialConnection(Ok(info)) => event@
                == ListenerEventView::InitialConnection(Ok(optional_session(info))),
            ListenerEvent::InitialConnection(Err(e)) => event@
                == ListenerEventView::<L>::InitialConnection(Err(e@)),
            ListenerEvent::NameGenerated(name) => event@ == ListenerEventView::<L>::NameGenerated(
                optional_text(name),
            ),
            ListenerEvent::NameChecked(r) => event@ == ListenerEventView::<L>::NameChecked(
                outcome(r),
            ),
            ListenerEvent::SessionInspected { session_name, is_read_only, session_exists } => {
                event@ matches ListenerEventView::SessionInspected {
                    session_name: n,
                    is_read_only: r,
                    session_exists: e,
                } && n == session_name@ && r == is_read_only && e == session_exists
            },
            ListenerEvent::SessionSpawned(r) => event@ == ListenerEventView::<L>::SessionSpawned(
                outcome(r),
            ),
            ListenerEvent::MessageReceived(Some(m)) => event@
                == ListenerEventView::MessageReceived(Some(m@)),
            ListenerEvent::MessageReceived(None) => event@
                == ListenerEventView::<L>::MessageReceived(None),
            ListenerEvent::ConfigReloaded(ok) => event@ == ListenerEventView::<L>::ConfigReloaded(
                ok,
            ),
        },
{
}

/// The view of a notice holds all of it.
pub proof fn law_control_notice_view_holds_everything(notice: ControlNotice)
    ensures
        match notice {
            ControlNotice::QueryTerminalSize => notice@ is QueryTerminalSize,
            ControlNotice::Log { lines } => {
                notice@ matches ControlNoticeView::Log { lines: l } && l == texts(lines@)
            },
            ControlNotice::LogError { lines } => {
                notice@ matches ControlNoticeView::LogError { lines: l } && l == texts(lines@)
            },
            ControlNotice::SwitchedSession { new_session_name } => {
                notice@ matches ControlNoticeView::SwitchedSession { new_session_name: n } && n
                    == new_session_name@
            },
        },
{
}

/// The view of an action holds all of it.
pub proof fn law_listener_action_view_holds_everything<L>(action: ListenerAction<L>)
    ensures
        match action {
            ListenerAction::GenerateName => action@ is GenerateName,
            ListenerAction::CheckName(name) => action@ == ListenerActionView::<L>::CheckName(name@),
            ListenerAction::InspectSession(name) => action@
                == ListenerActionView::<L>::InspectSession(name@),
            ListenerAction::SpawnSession {
                session_name,
                is_read_only,
                session_exists,
                should_create_new_session,
                initial_layout,
            } => {
                action@ matches ListenerActionView::SpawnSession {
                    session_name: n,
                    is_read_only: r,
                    session_exists: e,
                    should_create_new_session: c,
                    initial_layout: l,
                } && n == session_name@ && r == is_read_only && e == session_exists && c
                    == should_create_new_session && l == initial_layout
            },
            ListenerAction::SendHostQuerySeeds => action@ is SendHostQuerySeeds,
            ListenerAction::SignalAttachmentComplete => action@ is SignalAttachmentComplete,
            ListenerAction::SendControl(notice) => action@
                == ListenerActionView::<L>::SendControl(notice@),
            ListenerAction::SendStdout(text) => action@ == ListenerActionView::<L>::SendStdout(
                text@,
            ),
            ListenerAction::SendTerminalInit => action@ is SendTerminalInit,
            ListenerAction::ReloadConfig => action@ is ReloadConfig,
            ListenerAction::SendReloadedSeeds => action@ is SendReloadedSeeds,
            ListenerAction::BroadcastConfig => action@ is BroadcastConfig,
            ListenerAction::ReplyFromHost { token, reply_bytes } => {
                action@ matches ListenerActionView::ReplyFromHost { token: t, reply_bytes: b } && t
                    == token && b == reply_bytes@
            },
            ListenerAction::SendClientExited => action@ is SendClientExited,
            ListenerAction::CloseConnection => action@ is CloseConnection,
            ListenerAction::CloseConnectionKicked => action@ is CloseConnectionKicked,
        },
{
}

/// The views of actions are as many as the actions, and in the same order.
pub proof fn law_listener_actions_are_viewed_in_order<L>(actions: Seq<ListenerAction<L>>)
    ensures
        actions_view(actions).len() == actions.len(),
        forall|i: int|
            0 <= i < actions.len() ==> #[trigger] actions_view(actions)[i] == actions[i]@,
{
}

} // verus!
