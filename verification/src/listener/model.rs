//! What the listener does: from a state and an event to the next state and the
//! actions that it asks for, in order.

use vstd::prelude::*;

use super::messages::{
    ConnectToSessionView, ControlNoticeView, ListenerActionView, ListenerEventView,
    ServerMessageView,
};
use crate::notices::{
    ExitReasonView, bad_name_text, denied_text, exit_text, flooded_text, no_name_text,
    not_started_text,
};
use crate::socket::plain_name;

verus! {

/// How many unreadable messages in a row end the connection.
pub const UNKNOWN_MESSAGE_LIMIT: u32 = 1000;

/// What the listener waits for.
pub enum PhaseView<L> {
    /// For the connection that the client asked for.
    Starting,
    /// For a session name to be made up.
    Naming { layout: Option<L> },
    /// For the session name to be checked.
    Checking { name: Seq<char>, layout: Option<L> },
    /// For the session to be looked up.
    Inspecting { checked: Seq<char>, layout: Option<L> },
    /// For the session to be started or attached to.
    Spawning { session_name: Seq<char> },
    /// For a message of the server, or, while `reloading`, for the configuration.
    Attached { initialized: bool, unknown: nat, reloading: bool },
    /// For nothing more.
    Finished,
}

/// The state of a listener.
pub struct ListenerState<L> {
    /// The client is a terminal program of its own, not a browser.
    pub is_cli_client: bool,
    /// There is a configuration file to read again when it changes.
    pub has_config_file: bool,
    /// The client's input still waits for the first attachment.
    pub attachment_pending: bool,
    pub phase: PhaseView<L>,
}

impl<L> ListenerState<L> {
    /// The state of a new listener.
    pub open spec fn initial(
        is_cli_client: bool,
        has_config_file: bool,
        attachment_pending: bool,
    ) -> Self {
        ListenerState {
            is_cli_client,
            has_config_file,
            attachment_pending,
            phase: PhaseView::Starting,
        }
    }

    /// An attached listener has not yet seen the limit of unreadable messages.
    pub open spec fn well_formed(self) -> bool {
        self.phase matches PhaseView::Attached { unknown, .. } ==> unknown < UNKNOWN_MESSAGE_LIMIT
    }

    /// `event` answers what the listener waits for. A session whose name is a plain
    /// one goes by that name.
    pub open spec fn accepts(self, event: ListenerEventView<L>) -> bool {
        match event {
            ListenerEventView::InitialConnection(_) => self.phase is Starting,
            ListenerEventView::NameGenerated(_) => self.phase is Naming,
            ListenerEventView::NameChecked(_) => self.phase is Checking,
            ListenerEventView::SessionInspected { session_name, .. } => self.phase is Inspecting
                && (plain_name(self.phase->checked) ==> session_name == self.phase->checked),
            ListenerEventView::SessionSpawned(_) => self.phase is Spawning,
            ListenerEventView::MessageReceived(_) => self.phase is Attached
                && !self.phase->reloading,
            ListenerEventView::ConfigReloaded(_) => self.phase is Attached && self.phase->reloading,
        }
    }

    pub open spec fn in_phase(self, phase: PhaseView<L>) -> Self {
        ListenerState { phase, ..self }
    }

    /// The listener stops, after asking for `actions`.
    pub open spec fn finish(self, actions: Seq<ListenerActionView<L>>) -> (
        Self,
        Seq<ListenerActionView<L>>,
    ) {
        (self.in_phase(PhaseView::Finished), actions)
    }

    /// The client is shown `text`, and its connection is closed.
    pub open spec fn refuse(self, text: Seq<char>) -> (Self, Seq<ListenerActionView<L>>) {
        self.finish(seq![ListenerActionView::SendStdout(text), ListenerActionView::CloseConnection])
    }

    /// The listener turns to the session `info`: by its name, if it has one.
    pub open spec fn connect(self, info: Option<ConnectToSessionView<L>>) -> (
        Self,
        Seq<ListenerActionView<L>>,
    ) {
        let layout = match info {
            Some(info) => info.layout,
            None => None,
        };
        match info {
            Some(ConnectToSessionView { name: Some(name), .. }) => self.check(name, layout),
            _ => (
                self.in_phase(PhaseView::Naming { layout }),
                seq![ListenerActionView::GenerateName],
            ),
        }
    }

    pub open spec fn check(self, name: Seq<char>, layout: Option<L>) -> (
        Self,
        Seq<ListenerActionView<L>>,
    ) {
        (
            self.in_phase(PhaseView::Checking { name, layout }),
            seq![ListenerActionView::CheckName(name)],
        )
    }

    /// A client that may only read does not create sessions.
    pub open spec fn spawn(
        self,
        session_name: Seq<char>,
        is_read_only: bool,
        session_exists: bool,
        layout: Option<L>,
    ) -> (Self, Seq<ListenerActionView<L>>) {
        if is_read_only && !session_exists {
            self.refuse(denied_text())
        } else {
            (
                self.in_phase(PhaseView::Spawning { session_name }),
                seq![
                    ListenerActionView::SpawnSession {
                        session_name,
                        is_read_only,
                        session_exists,
                        should_create_new_session: !session_exists,
                        initial_layout: layout,
                    },
                ],
            )
        }
    }

    /// The session runs: from here on its server's messages are read.
    pub open spec fn attach(self, session_name: Seq<char>) -> (Self, Seq<ListenerActionView<L>>) {
        let attached = PhaseView::Attached { initialized: false, unknown: 0, reloading: false };
        (
            ListenerState { attachment_pending: false, phase: attached, ..self },
            seq![ListenerActionView::SendHostQuerySeeds] + (if self.attachment_pending {
                seq![ListenerActionView::SignalAttachmentComplete]
            } else {
                seq![]
            }) + seq![
                ListenerActionView::SendControl(
                    ControlNoticeView::SwitchedSession { new_session_name: session_name },
                ),
            ],
        )
    }

    /// A message that cannot be read: the limit of them in a row ends the
    /// connection, so as not to keep the processor busy with nothing.
    pub open spec fn unreadable(self) -> (Self, Seq<ListenerActionView<L>>) {
        if self.phase->unknown + 1 >= UNKNOWN_MESSAGE_LIMIT {
            self.refuse(flooded_text())
        } else {
            (
                self.in_phase(
                    PhaseView::Attached {
                        initialized: self.phase->initialized,
                        unknown: (self.phase->unknown + 1) as nat,
                        reloading: false,
                    },
                ),
                seq![],
            )
        }
    }

    /// The attached listener after a message that could be read.
    pub open spec fn heard(self) -> Self {
        self.in_phase(
            PhaseView::Attached {
                initialized: self.phase->initialized,
                unknown: 0,
                reloading: false,
            },
        )
    }

    /// The session's output. A browser's terminal is set up before the first of
    /// it; a client that is a terminal program sets up its own.
    pub open spec fn render(self, content: Seq<char>) -> (Self, Seq<ListenerActionView<L>>) {
        let init: Seq<ListenerActionView<L>> = if !self.phase->initialized && !self.is_cli_client {
            seq![ListenerActionView::SendTerminalInit]
        } else {
            seq![]
        };
        (
            self.in_phase(
                PhaseView::Attached { initialized: true, unknown: 0, reloading: false },
            ),
            init + seq![ListenerActionView::SendStdout(content)],
        )
    }

    /// The session ended for this client.
    pub open spec fn exit(self, exit_reason: ExitReasonView) -> (
        Self,
        Seq<ListenerActionView<L>>,
    ) {
        self.finish(
            seq![
                ListenerActionView::SendStdout(exit_text(exit_reason)),
                if exit_reason is KickedByHost {
                    ListenerActionView::CloseConnectionKicked
                } else {
                    ListenerActionView::CloseConnection
                },
                ListenerActionView::SendClientExited,
            ],
        )
    }

    pub open spec fn tell(self, notice: ControlNoticeView) -> (Self, Seq<ListenerActionView<L>>) {
        (self.heard(), seq![ListenerActionView::SendControl(notice)])
    }

    pub open spec fn receive(self, message: ServerMessageView<L>) -> (
        Self,
        Seq<ListenerActionView<L>>,
    ) {
        match message {
            ServerMessageView::UnblockInputThread
            | ServerMessageView::Connected
            | ServerMessageView::CliPipeOutput
            | ServerMessageView::UnblockCliPipeInput
            | ServerMessageView::StartWebServer
            | ServerMessageView::PaneRenderUpdate
            | ServerMessageView::SubscribedPaneClosed => (self.heard(), seq![]),
            ServerMessageView::Exit { exit_reason } => self.exit(exit_reason),
            ServerMessageView::Render { content } => self.render(content),
            ServerMessageView::SwitchSession { connect_to_session } => self.connect(
                Some(connect_to_session),
            ),
            ServerMessageView::QueryTerminalSize => self.tell(ControlNoticeView::QueryTerminalSize),
            ServerMessageView::Log { lines } => self.tell(ControlNoticeView::Log { lines }),
            ServerMessageView::LogError { lines } => self.tell(
                ControlNoticeView::LogError { lines },
            ),
            ServerMessageView::RenamedSession { name } => self.tell(
                ControlNoticeView::SwitchedSession { new_session_name: name },
            ),
            ServerMessageView::ConfigFileUpdated => if self.has_config_file {
                (
                    self.in_phase(
                        PhaseView::Attached {
                            initialized: self.phase->initialized,
                            unknown: 0,
                            reloading: true,
                        },
                    ),
                    seq![ListenerActionView::ReloadConfig],
                )
            } else {
                (self.heard(), seq![])
            },
            ServerMessageView::ForwardQueryToHost { token } => (
                self.heard(),
                seq![ListenerActionView::ReplyFromHost { token, reply_bytes: Seq::empty() }],
            ),
        }
    }

    /// The next state and the actions asked for, when `event` is accepted.
    pub open spec fn next(self, event: ListenerEventView<L>) -> (
        Self,
        Seq<ListenerActionView<L>>,
    ) {
        match event {
            ListenerEventView::InitialConnection(Ok(info)) => self.connect(info),
            ListenerEventView::InitialConnection(Err(_)) => self.finish(seq![]),
            ListenerEventView::NameGenerated(Some(name)) => self.check(
                name,
                self.phase->Naming_layout,
            ),
            ListenerEventView::NameGenerated(None) => self.refuse(no_name_text()),
            ListenerEventView::NameChecked(Ok(_)) => (
                self.in_phase(
                    PhaseView::Inspecting {
                        checked: self.phase->name,
                        layout: self.phase->Checking_layout,
                    },
                ),
                seq![ListenerActionView::InspectSession(self.phase->name)],
            ),
            ListenerEventView::NameChecked(Err(e)) => self.refuse(
                bad_name_text(self.phase->name, e),
            ),
            ListenerEventView::SessionInspected {
                session_name,
                is_read_only,
                session_exists,
            } => self.spawn(
                session_name,
                is_read_only,
                session_exists == Some(true),
                self.phase->Inspecting_layout,
            ),
            ListenerEventView::SessionSpawned(Ok(_)) => self.attach(self.phase->session_name),
            ListenerEventView::SessionSpawned(Err(e)) => self.refuse(
                not_started_text(self.phase->session_name, e),
            ),
            ListenerEventView::MessageReceived(Some(message)) => self.receive(message),
            ListenerEventView::MessageReceived(None) => self.unreadable(),
            ListenerEventView::ConfigReloaded(ok) => (
                self.heard(),
                if ok {
                    seq![ListenerActionView::SendReloadedSeeds, ListenerActionView::BroadcastConfig]
                } else {
                    seq![]
                },
            ),
        }
    }
}

} // verus!
