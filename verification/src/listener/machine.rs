//! The listener's state machine.

use vstd::pervasive::unreached;
use vstd::prelude::*;

use super::messages::{
    ConnectToSession, ControlNotice, ListenerAction, ListenerActionView, ListenerEvent,
    ServerMessage, actions_view, optional_session,
};
use super::model::{ListenerState, PhaseView, UNKNOWN_MESSAGE_LIMIT};
use crate::notices::{
    ExitReason, bad_name_notice, denied_notice, flooded_notice, handle_exit_reason, no_name_notice,
    not_started_notice,
};
use crate::socket::is_plain_name;

verus! {

/// What the listener waits for.
#[derive(Debug, PartialEq, Eq)]
pub enum Phase<L> {
    Starting,
    Naming { layout: Option<L> },
    Checking { name: String, layout: Option<L> },
    Inspecting { checked: String, layout: Option<L> },
    Spawning { session_name: String },
    Attached { initialized: bool, unknown: u32, reloading: bool },
    Finished,
}

impl<L> View for Phase<L> {
    type V = PhaseView<L>;

    open spec fn view(&self) -> PhaseView<L> {
        match *self {
            Phase::Starting => PhaseView::Starting,
            Phase::Naming { layout } => PhaseView::Naming { layout },
            Phase::Checking { name, layout } => PhaseView::Checking { name: name@, layout },
            Phase::Inspecting { checked, layout } => PhaseView::Inspecting {
                checked: checked@,
                layout,
            },
            Phase::Spawning { session_name } => PhaseView::Spawning { session_name: session_name@ },
            Phase::Attached { initialized, unknown, reloading } => PhaseView::Attached {
                initialized,
                unknown: unknown as nat,
                reloading,
            },
            Phase::Finished => PhaseView::Finished,
        }
    }
}

/// The listener between a web client and its session.
#[derive(Debug, PartialEq, Eq)]
pub struct ServerListener<L> {
    pub is_cli_client: bool,
    pub has_config_file: bool,
    pub attachment_pending: bool,
    pub phase: Phase<L>,
}

impl<L> View for ServerListener<L> {
    type V = ListenerState<L>;

    open spec fn view(&self) -> ListenerState<L> {
        ListenerState {
            is_cli_client: self.is_cli_client,
            has_config_file: self.has_config_file,
            attachment_pending: self.attachment_pending,
            phase: self.phase@,
        }
    }
}

fn one<L>(a: ListenerAction<L>) -> (r: Vec<ListenerAction<L>>)
    ensures
        actions_view(r@) == seq![a@],
{
    vec![a]
}

fn two<L>(a: ListenerAction<L>, b: ListenerAction<L>) -> (r: Vec<ListenerAction<L>>)
    ensures
        actions_view(r@) == seq![a@, b@],
{
    vec![a, b]
}

fn three<L>(a: ListenerAction<L>, b: ListenerAction<L>, c: ListenerAction<L>) -> (r: Vec<
    ListenerAction<L>,
>)
    ensures
        actions_view(r@) == seq![a@, b@, c@],
{
    vec![a, b, c]
}

impl<L> ServerListener<L> {
    /// A listener of a client that has not connected to a session yet.
    pub fn new(is_cli_client: bool, has_config_file: bool, attachment_pending: bool) -> (r: Self)
        ensures
            r@ == ListenerState::<L>::initial(is_cli_client, has_config_file, attachment_pending),
            r@.well_formed(),
    {
        ServerListener {
            is_cli_client,
            has_config_file,
            attachment_pending,
            phase: Phase::Starting,
        }
    }

    /// Whether the listener has stopped.
    pub fn is_finished(&self) -> (r: bool)
        ensures
            r == (self@.phase is Finished),
    {
        match self.phase {
            Phase::Finished => true,
            _ => false,
        }
    }

    /// Whether `event` answers what the listener waits for.
    pub fn expects(&self, event: &ListenerEvent<L>) -> (r: bool)
        ensures
            r == self@.accepts(event@),
    {
        match (event, &self.phase) {
            (ListenerEvent::InitialConnection(_), Phase::Starting) => true,
            (ListenerEvent::NameGenerated(_), Phase::Naming { .. }) => true,
            (ListenerEvent::NameChecked(_), Phase::Checking { .. }) => true,
            (
                ListenerEvent::SessionInspected { session_name, .. },
                Phase::Inspecting { checked, .. },
            ) => !is_plain_name(checked.as_str()) || *session_name == *checked,
            (ListenerEvent::SessionSpawned(_), Phase::Spawning { .. }) => true,
            (ListenerEvent::MessageReceived(_), Phase::Attached { reloading, .. }) => !*reloading,
            (ListenerEvent::ConfigReloaded(_), Phase::Attached { reloading, .. }) => *reloading,
            _ => false,
        }
    }

    fn in_phase(self, phase: Phase<L>) -> (r: Self)
        ensures
            r@ == self@.in_phase(phase@),
    {
        ServerListener { phase, ..self }
    }

    fn refuse(self, text: String) -> (r: (Self, Vec<ListenerAction<L>>))
        ensures
            (r.0@, actions_view(r.1@)) == self@.refuse(text@),
    {
        (
            self.in_phase(Phase::Finished),
            two(ListenerAction::SendStdout(text), ListenerAction::CloseConnection),
        )
    }

    fn check(self, name: String, layout: Option<L>) -> (r: (Self, Vec<ListenerAction<L>>))
        ensures
            (r.0@, actions_view(r.1@)) == self@.check(name@, layout),
    {
        let asked = name.clone();
        (
            self.in_phase(Phase::Checking { name, layout }),
            one(ListenerAction::CheckName(asked)),
        )
    }

    fn connect(self, info: Option<ConnectToSession<L>>) -> (r: (Self, Vec<ListenerAction<L>>))
        ensures
            (r.0@, actions_view(r.1@)) == self@.connect(optional_session(info)),
    {
        match info {
            Some(ConnectToSession { name: Some(name), layout }) => self.check(name, layout),
            Some(ConnectToSession { name: None, layout }) => (
                self.in_phase(Phase::Naming { layout }),
                one(ListenerAction::GenerateName),
            ),
            None => (
                self.in_phase(Phase::Naming { layout: None }),
                one(ListenerAction::GenerateName),
            ),
        }
    }

    fn spawn(
        self,
        session_name: String,
        is_read_only: bool,
        session_exists: bool,
        layout: Option<L>,
    ) -> (r: (Self, Vec<ListenerAction<L>>))
        ensures
            (r.0@, actions_view(r.1@)) == self@.spawn(
                session_name@,
                is_read_only,
                session_exists,
                layout,
            ),
    {
        if is_read_only && !session_exists {
            self.refuse(denied_notice())
        } else {
            let asked = session_name.clone();
            (
                self.in_phase(Phase::Spawning { session_name }),
                one(
                    ListenerAction::SpawnSession {
                        session_name: asked,
                        is_read_only,
                        session_exists,
                        should_create_new_session: !session_exists,
                        initial_layout: layout,
                    },
                ),
            )
        }
    }

    fn attach(self, session_name: String) -> (r: (Self, Vec<ListenerAction<L>>))
        ensures
            (r.0@, actions_view(r.1@)) == self@.attach(session_name@),
    {
        let switched = ListenerAction::SendControl(
            ControlNotice::SwitchedSession { new_session_name: session_name },
        );
        let actions = if self.attachment_pending {
            three(
                ListenerAction::SendHostQuerySeeds,
                ListenerAction::SignalAttachmentComplete,
                switched,
            )
        } else {
            two(ListenerAction::SendHostQuerySeeds, switched)
        };
        let attached = Phase::Attached { initialized: false, unknown: 0, reloading: false };
        (ServerListener { attachment_pending: false, phase: attached, ..self }, actions)
    }

    fn exit(self, exit_reason: ExitReason) -> (r: (Self, Vec<ListenerAction<L>>))
        ensures
            (r.0@, actions_view(r.1@)) == self@.exit(exit_reason@),
    {
        let notice = handle_exit_reason(exit_reason);
        let close = if notice.kicked {
            ListenerAction::CloseConnectionKicked
        } else {
            ListenerAction::CloseConnection
        };
        (
            self.in_phase(Phase::Finished),
            three(
                ListenerAction::SendStdout(notice.text),
                close,
                ListenerAction::SendClientExited,
            ),
        )
    }

    fn heard(self, initialized: bool) -> (r: Self)
        requires
            self@.phase matches PhaseView::Attached { initialized: i, .. } && i == initialized,
        ensures
            r@ == self@.heard(),
    {
        self.in_phase(Phase::Attached { initialized, unknown: 0, reloading: false })
    }

    fn tell(self, initialized: bool, notice: ControlNotice) -> (r: (Self, Vec<ListenerAction<L>>))
        requires
            self@.phase matches PhaseView::Attached { initialized: i, .. } && i == initialized,
        ensures
            (r.0@, actions_view(r.1@)) == self@.tell(notice@),
    {
        (self.heard(initialized), one(ListenerAction::SendControl(notice)))
    }

    fn render(self, initialized: bool, content: String) -> (r: (Self, Vec<ListenerAction<L>>))
        requires
            self@.phase matches PhaseView::Attached { initialized: i, .. } && i == initialized,
        ensures
            (r.0@, actions_view(r.1@)) == self@.render(content@),
    {
        let output = ListenerAction::SendStdout(content);
        let actions = if !initialized && !self.is_cli_client {
            two(ListenerAction::SendTerminalInit, output)
        } else {
            one(output)
        };
        (
            self.in_phase(Phase::Attached { initialized: true, unknown: 0, reloading: false }),
            actions,
        )
    }

    fn receive(self, initialized: bool, message: ServerMessage<L>) -> (r: (
        Self,
        Vec<ListenerAction<L>>,
    ))
        requires
            self@.phase matches PhaseView::Attached { initialized: i, .. } && i == initialized,
        ensures
            (r.0@, actions_view(r.1@)) == self@.receive(message@),
    {
        match message {
            ServerMessage::UnblockInputThread
            | ServerMessage::Connected
            | ServerMessage::CliPipeOutput
            | ServerMessage::UnblockCliPipeInput
            | ServerMessage::StartWebServer
            | ServerMessage::PaneRenderUpdate
            | ServerMessage::SubscribedPaneClosed => (self.heard(initialized), Vec::new()),
            ServerMessage::Exit { exit_reason } => self.exit(exit_reason),
            ServerMessage::Render { content } => self.render(initialized, content),
            ServerMessage::SwitchSession { connect_to_session } => self.connect(
                Some(connect_to_session),
            ),
            ServerMessage::QueryTerminalSize => self.tell(
                initialized,
                ControlNotice::QueryTerminalSize,
            ),
            ServerMessage::Log { lines } => self.tell(initialized, ControlNotice::Log { lines }),
            ServerMessage::LogError { lines } => self.tell(
                initialized,
                ControlNotice::LogError { lines },
            ),
            ServerMessage::RenamedSession { name } => self.tell(
                initialized,
                ControlNotice::SwitchedSession { new_session_name: name },
            ),
            ServerMessage::ConfigFileUpdated => if self.has_config_file {
                (
                    self.in_phase(Phase::Attached { initialized, unknown: 0, reloading: true }),
                    one(ListenerAction::ReloadConfig),
                )
            } else {
                (self.heard(initialized), Vec::new())
            },
            ServerMessage::ForwardQueryToHost { token } => {
                // An empty reply makes the server answer from what it knows of
                // the client's terminal, instead of waiting for the client.
                let reply_bytes: Vec<u8> = Vec::new();
                (
                    self.heard(initialized),
                    one(ListenerAction::ReplyFromHost { token, reply_bytes }),
                )
            },
        }
    }

    fn unreadable(self, initialized: bool, unknown: u32) -> (r: (Self, Vec<ListenerAction<L>>))
        requires
            unknown < UNKNOWN_MESSAGE_LIMIT,
            self@.phase == (PhaseView::<L>::Attached {
                initialized,
                unknown: unknown as nat,
                reloading: false,
            }),
        ensures
            (r.0@, actions_view(r.1@)) == self@.unreadable(),
    {
        if unknown + 1 >= UNKNOWN_MESSAGE_LIMIT {
            self.refuse(flooded_notice())
        } else {
            (
                self.in_phase(
                    Phase::Attached { initialized, unknown: unknown + 1, reloading: false },
                ),
                Vec::new(),
            )
        }
    }

    /// Takes in what happened, and answers with what is to be done, in order.
    pub fn step(self, event: ListenerEvent<L>) -> (r: (Self, Vec<ListenerAction<L>>))
        requires
            self@.well_formed(),
            self@.accepts(event@),
        ensures
            (r.0@, actions_view(r.1@)) == self@.next(event@),
            r.0@.well_formed(),
    {
        match (event, self.phase) {
            (ListenerEvent::InitialConnection(Ok(info)), Phase::Starting) => {
                let this = ServerListener { phase: Phase::Starting, ..self };
                this.connect(info)
            },
            (ListenerEvent::InitialConnection(Err(_)), Phase::Starting) => (
                ServerListener { phase: Phase::Finished, ..self },
                Vec::new(),
            ),
            (ListenerEvent::NameGenerated(Some(name)), Phase::Naming { layout }) => {
                let this = ServerListener { phase: Phase::Naming { layout: None }, ..self };
                this.check(name, layout)
            },
            (ListenerEvent::NameGenerated(None), Phase::Naming { layout }) => {
                let this = ServerListener { phase: Phase::Naming { layout }, ..self };
                this.refuse(no_name_notice())
            },
            (ListenerEvent::NameChecked(Ok(_)), Phase::Checking { name, layout }) => {
                let checked = name.clone();
                (
                    ServerListener { phase: Phase::Inspecting { checked, layout }, ..self },
                    one(ListenerAction::InspectSession(name)),
                )
            },
            (ListenerEvent::NameChecked(Err(e)), Phase::Checking { name, layout }) => {
                let text = bad_name_notice(name.as_str(), e.as_str());
                let this = ServerListener { phase: Phase::Checking { name, layout }, ..self };
                this.refuse(text)
            },
            (
                ListenerEvent::SessionInspected { session_name, is_read_only, session_exists },
                Phase::Inspecting { layout, .. },
            ) => {
                let this = ServerListener { phase: Phase::Starting, ..self };
                this.spawn(session_name, is_read_only, session_exists.unwrap_or(false), layout)
            },
            (ListenerEvent::SessionSpawned(Ok(_)), Phase::Spawning { session_name }) => {
                let this = ServerListener { phase: Phase::Starting, ..self };
                this.attach(session_name)
            },
            (ListenerEvent::SessionSpawned(Err(e)), Phase::Spawning { session_name }) => {
                let text = not_started_notice(session_name.as_str(), e.as_str());
                let this = ServerListener { phase: Phase::Spawning { session_name }, ..self };
                this.refuse(text)
            },
            (
                ListenerEvent::MessageReceived(message),
                Phase::Attached { initialized, unknown, reloading },
            ) => {
                let phase = Phase::Attached { initialized, unknown, reloading };
                let this = ServerListener { phase, ..self };
                match message {
                    Some(message) => this.receive(initialized, message),
                    None => this.unreadable(initialized, unknown),
                }
            },
            (
                ListenerEvent::ConfigReloaded(ok),
                Phase::Attached { initialized, unknown, reloading },
            ) => {
                let phase = Phase::Attached { initialized, unknown, reloading };
                let this = ServerListener { phase, ..self };
                let actions = if ok {
                    two(ListenerAction::SendReloadedSeeds, ListenerAction::BroadcastConfig)
                } else {
                    Vec::new()
                };
                (this.heard(initialized), actions)
            },
            _ => unreached(),
        }
    }
}

/// The view of a listener holds all of it.
pub proof fn law_listener_view_holds_everything<L>(listener: ServerListener<L>)
    ensures
        listener@.is_cli_client == listener.is_cli_client,
        listener@.has_config_file == listener.has_config_file,
        listener@.attachment_pending == listener.attachment_pending,
        match listener.phase {
            Phase::Starting => listener@.phase is Starting,
            Phase::Naming { layout } => {
                listener@.phase matches PhaseView::Naming { layout: l } && l == layout
            },
            Phase::Checking { name, layout } => {
                listener@.phase matches PhaseView::Checking { name: n, layout: l } && n == name@
                    && l == layout
            },
            Phase::Inspecting { checked, layout } => {
                listener@.phase matches PhaseView::Inspecting { checked: c, layout: l } && c
                    == checked@ && l == layout
            },
            Phase::Spawning { session_name } => {
                listener@.phase matches PhaseView::Spawning { session_name: n } && n
                    == session_name@
            },
            Phase::Attached { initialized, unknown, reloading } => {
                listener@.phase matches PhaseView::Attached {
                    initialized: i,
                    unknown: u,
                    reloading: r,
                } && i == initialized && u == unknown && r == reloading
            },
            Phase::Finished => listener@.phase is Finished,
        },
{
}

} // verus!
