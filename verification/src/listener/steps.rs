//! What a listener makes of each event, in every state in which it waits for it.

use vstd::prelude::*;

use super::machine::ServerListener;
use super::messages::{
    ConnectToSessionView, ControlNoticeView, ListenerAction, ListenerActionView, ListenerEvent,
    ListenerEventView, ServerMessageView, actions_view,
};
use super::model::{ListenerState, PhaseView, UNKNOWN_MESSAGE_LIMIT};
use crate::notices::{
    ExitReasonView, bad_name_text, denied_text, exit_text, flooded_text, no_name_text,
    not_started_text,
};
use crate::socket::plain_name;

verus! {

/// The listener waits for one kind of event at a time, and once it has stopped for
/// none. Of a session whose name is a plain one it hears under that name.
pub proof fn law_what_a_listener_waits_for<L>(s: ListenerState<L>, event: ListenerEventView<L>)
    ensures
        s.accepts(event) == match s.phase {
            PhaseView::Starting => event is InitialConnection,
            PhaseView::Naming { .. } => event is NameGenerated,
            PhaseView::Checking { .. } => event is NameChecked,
            PhaseView::Inspecting { checked, .. } => {
                event matches ListenerEventView::SessionInspected { session_name, .. } && (
                plain_name(checked) ==> session_name == checked)
            },
            PhaseView::Spawning { .. } => event is SessionSpawned,
            PhaseView::Attached { reloading: true, .. } => event is ConfigReloaded,
            PhaseView::Attached { reloading: false, .. } => event is MessageReceived,
            PhaseView::Finished => false,
        },
{
}

/// A new listener waits for the connection that its client asked for.
pub proof fn law_new_listener<L>(
    is_cli_client: bool,
    has_config_file: bool,
    attachment_pending: bool,
)
    ensures
        ({
            let s = ListenerState::<L>::initial(is_cli_client, has_config_file, attachment_pending);
            &&& s.is_cli_client == is_cli_client
            &&& s.has_config_file == has_config_file
            &&& s.attachment_pending == attachment_pending
            &&& s.phase is Starting
        }),
{
}

/// No event changes what kind of client the listener has and whether there is a
/// configuration file. The client's input waits until a session is attached to,
/// and no longer.
pub proof fn law_what_no_event_changes<L>(s: ListenerState<L>, event: ListenerEventView<L>)
    requires
        s.accepts(event),
    ensures
        s.next(event).0.is_cli_client == s.is_cli_client,
        s.next(event).0.has_config_file == s.has_config_file,
        s.next(event).0.attachment_pending == (s.attachment_pending && !(
        event matches ListenerEventView::SessionSpawned(Ok(_)))),
{
}

/// A session that is asked for, when the client connects or when it switches, has
/// its name checked, or made up if it has none. Its layout is kept.
pub proof fn law_asking_for_a_session<L>(
    s: ListenerState<L>,
    event: ListenerEventView<L>,
    info: ConnectToSessionView<L>,
)
    requires
        s.accepts(event),
        event == ListenerEventView::InitialConnection(Ok(Some(info))) || event
            == ListenerEventView::MessageReceived(
            Some(ServerMessageView::SwitchSession { connect_to_session: info }),
        ),
    ensures
        info.name matches Some(name) ==> s.next(event).0.phase == (PhaseView::Checking {
            name,
            layout: info.layout,
        }) && s.next(event).1 == seq![ListenerActionView::<L>::CheckName(name)],
        info.name is None ==> s.next(event).0.phase == (PhaseView::Naming { layout: info.layout })
            && s.next(event).1 == seq![ListenerActionView::<L>::GenerateName],
{
}

/// A client that asks for no session in particular gets one with a name made up
/// for it and no layout. One whose wish cannot be worked out gets nothing.
pub proof fn law_asking_for_no_session<L>(s: ListenerState<L>, error: Seq<char>)
    requires
        s.phase is Starting,
    ensures
        ({
            let none = ListenerEventView::InitialConnection(Ok(None));
            &&& s.next(none).0.phase == (PhaseView::Naming::<L> { layout: None })
            &&& s.next(none).1 == seq![ListenerActionView::<L>::GenerateName]
        }),
        ({
            let failed = ListenerEventView::InitialConnection(Err(error));
            &&& s.next(failed).0.phase is Finished
            &&& s.next(failed).1.len() == 0
        }),
{
}

/// A name that was made up is checked like any other. If none could be made up,
/// the client is told so and its connection is closed.
pub proof fn law_making_up_a_name<L>(s: ListenerState<L>, made_up: Option<Seq<char>>)
    requires
        s.phase is Naming,
    ensures
        ({
            let (t, actions) = s.next(ListenerEventView::NameGenerated(made_up));
            match made_up {
                Some(name) => {
                    &&& t.phase == (PhaseView::Checking { name, layout: s.phase->Naming_layout })
                    &&& actions == seq![ListenerActionView::<L>::CheckName(name)]
                },
                None => {
                    &&& t.phase is Finished
                    &&& actions == seq![
                        ListenerActionView::<L>::SendStdout(no_name_text()),
                        ListenerActionView::CloseConnection,
                    ]
                },
            }
        }),
{
}

/// A session is looked up by the name that stood the check. Of a name that did
/// not, the client is told which and why, and its connection is closed.
pub proof fn law_checking_a_name<L>(s: ListenerState<L>, checked: Result<(), Seq<char>>)
    requires
        s.phase is Checking,
    ensures
        ({
            let (t, actions) = s.next(ListenerEventView::NameChecked(checked));
            let name = s.phase->name;
            match checked {
                Ok(_) => {
                    &&& t.phase == (PhaseView::Inspecting {
                        checked: name,
                        layout: s.phase->Checking_layout,
                    })
                    &&& actions == seq![ListenerActionView::<L>::InspectSession(name)]
                },
                Err(error) => {
                    &&& t.phase is Finished
                    &&& actions == seq![
                        ListenerActionView::<L>::SendStdout(bad_name_text(name, error)),
                        ListenerActionView::CloseConnection,
                    ]
                },
            }
        }),
{
}

/// A session that was looked up is started with the layout asked for, created if
/// it is not known to exist. A client that may only read and asks for a session
/// that is not known to exist is denied, and its connection is closed.
pub proof fn law_looking_up_a_session<L>(
    s: ListenerState<L>,
    session_name: Seq<char>,
    is_read_only: bool,
    session_exists: Option<bool>,
)
    requires
        s.phase is Inspecting,
    ensures
        ({
            let (t, actions) = s.next(
                ListenerEventView::SessionInspected { session_name, is_read_only, session_exists },
            );
            let exists_for_sure = session_exists matches Some(true);
            if is_read_only && !exists_for_sure {
                &&& t.phase is Finished
                &&& actions == seq![
                    ListenerActionView::<L>::SendStdout(denied_text()),
                    ListenerActionView::CloseConnection,
                ]
            } else {
                &&& t.phase == (PhaseView::Spawning::<L> { session_name })
                &&& actions == seq![
                    ListenerActionView::SpawnSession {
                        session_name,
                        is_read_only,
                        session_exists: exists_for_sure,
                        should_create_new_session: !exists_for_sure,
                        initial_layout: s.phase->Inspecting_layout,
                    },
                ]
            }
        }),
{
}

/// Once a session is started, the server is told the colors, the client's input is
/// let through if it still waits, and the client is told the session's name. If
/// the session could not be started, the client is told which and why, and its
/// connection is closed.
pub proof fn law_starting_a_session<L>(s: ListenerState<L>, spawned: Result<(), Seq<char>>)
    requires
        s.phase is Spawning,
    ensures
        ({
            let (t, actions) = s.next(ListenerEventView::SessionSpawned(spawned));
            let name = s.phase->session_name;
            match spawned {
                Ok(_) => {
                    &&& t.phase == (PhaseView::Attached::<L> {
                        initialized: false,
                        unknown: 0,
                        reloading: false,
                    })
                    &&& actions.len() == if s.attachment_pending {
                        3
                    } else {
                        2int
                    }
                    &&& actions.first() is SendHostQuerySeeds
                    &&& s.attachment_pending ==> actions[1] is SignalAttachmentComplete
                    &&& actions.last() == ListenerActionView::<L>::SendControl(
                        ControlNoticeView::SwitchedSession { new_session_name: name },
                    )
                },
                Err(error) => {
                    &&& t.phase is Finished
                    &&& actions == seq![
                        ListenerActionView::<L>::SendStdout(not_started_text(name, error)),
                        ListenerActionView::CloseConnection,
                    ]
                },
            }
        }),
{
}

/// The listener is attached and reads messages.
pub open spec fn reads<L>(s: ListenerState<L>) -> bool {
    s.phase matches PhaseView::Attached { reloading: false, .. }
}

/// `t` reads on after a message that `s` could read, with the terminal set up or
/// not as before.
pub open spec fn reads_on<L>(s: ListenerState<L>, t: ListenerState<L>) -> bool {
    t.phase == (PhaseView::Attached::<L> {
        initialized: s.phase->initialized,
        unknown: 0,
        reloading: false,
    })
}

/// A question for the terminal's size, log lines, error lines and a new session
/// name each go to the client's control channel as they are, whether the client's
/// terminal was set up or not, and nothing else happens.
pub proof fn law_notices_go_to_the_control_channel<L>(
    s: ListenerState<L>,
    lines: Seq<Seq<char>>,
    name: Seq<char>,
)
    requires
        reads(s),
    ensures
        ({
            let (t, actions) = s.next(
                ListenerEventView::MessageReceived(Some(ServerMessageView::QueryTerminalSize)),
            );
            reads_on(s, t) && actions == seq![
                ListenerActionView::<L>::SendControl(ControlNoticeView::QueryTerminalSize),
            ]
        }),
        ({
            let (t, actions) = s.next(
                ListenerEventView::MessageReceived(Some(ServerMessageView::Log { lines })),
            );
            reads_on(s, t) && actions == seq![
                ListenerActionView::<L>::SendControl(ControlNoticeView::Log { lines }),
            ]
        }),
        ({
            let (t, actions) = s.next(
                ListenerEventView::MessageReceived(Some(ServerMessageView::LogError { lines })),
            );
            reads_on(s, t) && actions == seq![
                ListenerActionView::<L>::SendControl(ControlNoticeView::LogError { lines }),
            ]
        }),
        ({
            let (t, actions) = s.next(
                ListenerEventView::MessageReceived(
                    Some(ServerMessageView::RenamedSession { name }),
                ),
            );
            reads_on(s, t) && actions == seq![
                ListenerActionView::<L>::SendControl(
                    ControlNoticeView::SwitchedSession { new_session_name: name },
                ),
            ]
        }),
{
}

/// Whatever the reason for which a session exits, the client is shown that reason,
/// its connection is closed, as a kicked one only if it was kicked out, the server
/// is told that the client is gone, and the listener stops.
pub proof fn law_every_exit_ends_the_session<L>(s: ListenerState<L>, exit_reason: ExitReasonView)
    requires
        reads(s),
    ensures
        ({
            let (t, actions) = s.next(
                ListenerEventView::MessageReceived(Some(ServerMessageView::Exit { exit_reason })),
            );
            &&& t.phase is Finished
            &&& actions.len() == 3
            &&& actions[0] == ListenerActionView::<L>::SendStdout(exit_text(exit_reason))
            &&& actions[1] is CloseConnectionKicked <==> exit_reason is KickedByHost
            &&& actions[1] is CloseConnection <==> !(exit_reason is KickedByHost)
            &&& actions[2] is SendClientExited
        }),
{
}

/// Output goes to the client's terminal as it is. The terminal is set up right
/// before it exactly if it is a browser's and was not set up yet; afterwards it
/// counts as set up.
pub proof fn law_rendering<L>(s: ListenerState<L>, content: Seq<char>)
    requires
        reads(s),
    ensures
        ({
            let (t, actions) = s.next(
                ListenerEventView::MessageReceived(Some(ServerMessageView::Render { content })),
            );
            &&& t.phase == (PhaseView::Attached::<L> {
                initialized: true,
                unknown: 0,
                reloading: false,
            })
            &&& actions.last() == ListenerActionView::<L>::SendStdout(content)
            &&& actions.len() == 1 || actions.len() == 2 && actions[0] is SendTerminalInit
            &&& actions.len() == 2 <==> !s.phase->initialized && !s.is_cli_client
        }),
{
}

/// A terminal query that the server passes on is answered at once, under its own
/// token and with nothing in it.
pub proof fn law_forwarded_queries_are_answered<L>(s: ListenerState<L>, token: u64)
    requires
        reads(s),
    ensures
        ({
            let (t, actions) = s.next(
                ListenerEventView::MessageReceived(
                    Some(ServerMessageView::ForwardQueryToHost { token }),
                ),
            );
            &&& reads_on(s, t)
            &&& actions.len() == 1
            &&& actions[0] matches ListenerActionView::ReplyFromHost {
                token: answered,
                reply_bytes,
            } && answered == token && reply_bytes.len() == 0
        }),
{
}

/// A change of the configuration file makes the listener read it, if there is one.
/// If it could be read, the server is told its colors and every client is told the
/// configuration; if not, nothing comes of it. Then the listener reads on.
pub proof fn law_changed_configuration<L>(s: ListenerState<L>, ok: bool)
    requires
        reads(s),
    ensures
        ({
            let (t, actions) = s.next(
                ListenerEventView::MessageReceived(Some(ServerMessageView::ConfigFileUpdated)),
            );
            let (u, after) = t.next(ListenerEventView::ConfigReloaded(ok));
            if s.has_config_file {
                &&& t.phase == (PhaseView::Attached::<L> {
                    initialized: s.phase->initialized,
                    unknown: 0,
                    reloading: true,
                })
                &&& actions == seq![ListenerActionView::<L>::ReloadConfig]
                &&& reads_on(s, u)
                &&& ok ==> after == seq![
                    ListenerActionView::<L>::SendReloadedSeeds,
                    ListenerActionView::BroadcastConfig,
                ]
                &&& !ok ==> after.len() == 0
            } else {
                reads_on(s, t) && actions.len() == 0
            }
        }),
{
}

/// What comes of reading the configuration does not depend on how the listener got
/// there.
pub proof fn law_configuration_that_was_read<L>(s: ListenerState<L>, ok: bool)
    requires
        s.accepts(ListenerEventView::ConfigReloaded(ok)),
    ensures
        reads_on(s, s.next(ListenerEventView::ConfigReloaded(ok)).0),
        s.next(ListenerEventView::ConfigReloaded(ok)).1 == if ok {
            seq![
                ListenerActionView::<L>::SendReloadedSeeds,
                ListenerActionView::BroadcastConfig,
            ]
        } else {
            seq![]
        },
{
}

/// Messages that are no concern of a web client are passed over.
pub proof fn law_messages_of_no_concern<L>(s: ListenerState<L>, message: ServerMessageView<L>)
    requires
        reads(s),
        message is UnblockInputThread || message is Connected || message is CliPipeOutput
            || message is UnblockCliPipeInput || message is StartWebServer
            || message is PaneRenderUpdate || message is SubscribedPaneClosed,
    ensures
        reads_on(s, s.next(ListenerEventView::MessageReceived(Some(message))).0),
        s.next(ListenerEventView::MessageReceived(Some(message))).1.len() == 0,
{
}

/// A message that cannot be read is counted, and the one that makes the count
/// reach the limit has the client told and its connection closed.
pub proof fn law_unreadable_message<L>(s: ListenerState<L>)
    requires
        reads(s),
    ensures
        ({
            let (t, actions) = s.next(ListenerEventView::MessageReceived(None));
            let count = s.phase->unknown + 1;
            if count < UNKNOWN_MESSAGE_LIMIT {
                &&& t.phase == (PhaseView::Attached::<L> {
                    initialized: s.phase->initialized,
                    unknown: count as nat,
                    reloading: false,
                })
                &&& actions.len() == 0
            } else {
                &&& t.phase is Finished
                &&& actions == seq![
                    ListenerActionView::<L>::SendStdout(flooded_text()),
                    ListenerActionView::CloseConnection,
                ]
            }
        }),
{
}

/// What the client is to be told by way of its control channel on an event.
pub open spec fn notice_of<L>(s: ListenerState<L>, event: ListenerEventView<L>) -> Seq<
    ControlNoticeView,
> {
    match event {
        ListenerEventView::MessageReceived(Some(ServerMessageView::QueryTerminalSize)) => {
            seq![ControlNoticeView::QueryTerminalSize]
        },
        ListenerEventView::MessageReceived(Some(ServerMessageView::Log { lines })) => {
            seq![ControlNoticeView::Log { lines }]
        },
        ListenerEventView::MessageReceived(Some(ServerMessageView::LogError { lines })) => {
            seq![ControlNoticeView::LogError { lines }]
        },
        ListenerEventView::MessageReceived(Some(ServerMessageView::RenamedSession { name })) => {
            seq![ControlNoticeView::SwitchedSession { new_session_name: name }]
        },
        ListenerEventView::SessionSpawned(Ok(_)) => {
            seq![ControlNoticeView::SwitchedSession { new_session_name: s.phase->session_name }]
        },
        _ => seq![],
    }
}

/// All that the client is to be told in the course of `events`, in order.
pub open spec fn all_notices<L>(s: ListenerState<L>, events: Seq<ListenerEventView<L>>) -> Seq<
    ControlNoticeView,
>
    decreases events.len(),
{
    if events.len() == 0 {
        seq![]
    } else {
        all_notices(s, events.drop_last()) + notice_of(s.after(events.drop_last()), events.last())
    }
}

/// All that goes to the client's control channel, in order.
pub open spec fn sent_notices<L>(actions: Seq<ListenerActionView<L>>) -> Seq<ControlNoticeView>
    decreases actions.len(),
{
    if actions.len() == 0 {
        seq![]
    } else {
        let earlier = sent_notices(actions.drop_last());
        match actions.last() {
            ListenerActionView::SendControl(notice) => earlier.push(notice),
            _ => earlier,
        }
    }
}

proof fn lemma_sent_notices_add_up<L>(
    a: Seq<ListenerActionView<L>>,
    b: Seq<ListenerActionView<L>>,
)
    ensures
        sent_notices(a + b) == sent_notices(a) + sent_notices(b),
    decreases b.len(),
{
    if b.len() == 0 {
        assert(a + b =~= a);
    } else {
        assert((a + b).drop_last() =~= a + b.drop_last());
        lemma_sent_notices_add_up(a, b.drop_last());
    }
}

proof fn lemma_step_sends_its_notice<L>(s: ListenerState<L>, event: ListenerEventView<L>)
    requires
        s.accepts(event),
    ensures
        sent_notices(s.next(event).1) == notice_of(s, event),
{
    let new = s.next(event).1;
    reveal_with_fuel(sent_notices, 4);
    if new.len() > 0 {
        assert(new.drop_last().len() == new.len() - 1);
    }
}

/// Over a whole run, the client is told by way of its control channel exactly what
/// it is to be told, in order: nothing of it is lost, repeated or made up.
pub proof fn law_no_notice_is_lost<L>(s: ListenerState<L>, events: Seq<ListenerEventView<L>>)
    requires
        s.runs(events),
    ensures
        sent_notices(s.asked(events)) == all_notices(s, events),
    decreases events.len(),
{
    if events.len() > 0 {
        let earlier = events.drop_last();
        law_no_notice_is_lost(s, earlier);
        lemma_step_sends_its_notice(s.after(earlier), events.last());
        lemma_sent_notices_add_up(s.asked(earlier), s.after(earlier).next(events.last()).1);
    }
}

/// Every call of `step` on a listener does what comes of its event.
pub proof fn law_listener_steps_as_stated<L>(
    listener: ServerListener<L>,
    event: ListenerEvent<L>,
    r: (ServerListener<L>, Vec<ListenerAction<L>>),
)
    requires
        call_ensures(ServerListener::<L>::step, (listener, event), r),
    ensures
        r.0@ == listener@.next(event@).0,
        r.1@.len() == listener@.next(event@).1.len(),
        forall|i: int|
            0 <= i < r.1@.len() ==> (#[trigger] r.1@[i])@ == listener@.next(event@).1[i],
{
    assert forall|i: int| 0 <= i < r.1@.len() implies (#[trigger] r.1@[i])@ == listener@.next(
        event@,
    ).1[i] by {
        assert(actions_view(r.1@)[i] == r.1@[i]@);
    }
}

} // verus!
