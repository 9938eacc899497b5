//! What holds of every run of a listener.

use vstd::prelude::*;

use super::messages::{
    ConnectToSessionView, ListenerActionView, ListenerEventView, ServerMessageView,
};
use super::model::{ListenerState, PhaseView, UNKNOWN_MESSAGE_LIMIT};
use crate::notices::flooded_text;
use crate::socket::plain_name;

verus! {

impl<L> ListenerState<L> {
    /// The state after `events`.
    pub open spec fn after(self, events: Seq<ListenerEventView<L>>) -> Self
        decreases events.len(),
    {
        if events.len() == 0 {
            self
        } else {
            self.after(events.drop_last()).next(events.last()).0
        }
    }

    /// All that is asked for in the course of `events`, in order.
    pub open spec fn asked(self, events: Seq<ListenerEventView<L>>) -> Seq<ListenerActionView<L>>
        decreases events.len(),
    {
        if events.len() == 0 {
            seq![]
        } else {
            self.asked(events.drop_last()) + self.after(events.drop_last()).next(events.last()).1
        }
    }

    /// Each of `events` answers what the listener waits for when it comes.
    pub open spec fn runs(self, events: Seq<ListenerEventView<L>>) -> bool
        decreases events.len(),
    {
        events.len() == 0 || (self.runs(events.drop_last()) && self.after(
            events.drop_last(),
        ).accepts(events.last()))
    }
}

/// A listener stays well formed throughout every run.
pub proof fn law_run_stays_well_formed<L>(
    s: ListenerState<L>,
    events: Seq<ListenerEventView<L>>,
)
    requires
        s.well_formed(),
        s.runs(events),
    ensures
        s.after(events).well_formed(),
        s.after(events).is_cli_client == s.is_cli_client,
        s.after(events).has_config_file == s.has_config_file,
    decreases events.len(),
{
    if events.len() > 0 {
        law_run_stays_well_formed(s, events.drop_last());
    }
}

/// A listener that has stopped takes in nothing more.
pub proof fn law_finished_is_final<L>(s: ListenerState<L>, event: ListenerEventView<L>)
    requires
        s.phase is Finished,
    ensures
        !s.accepts(event),
{
}

proof fn lemma_step_signals<L>(s: ListenerState<L>, event: ListenerEventView<L>)
    requires
        s.accepts(event),
    ensures
        !s.attachment_pending ==> !s.next(event).0.attachment_pending,
        s.attachment_pending && !s.next(event).0.attachment_pending ==> s.next(event).1.len() == 3
            && s.next(event).1[1] is SignalAttachmentComplete,
        forall|i: int|
            0 <= i < s.next(event).1.len() && s.next(event).1[i] is SignalAttachmentComplete ==> i
                == 1 && s.attachment_pending && !s.next(event).0.attachment_pending,
{
    if event is SessionSpawned && event->SessionSpawned_0 is Ok && s.attachment_pending {
        assert(s.next(event).1 =~= seq![
            ListenerActionView::SendHostQuerySeeds,
            ListenerActionView::SignalAttachmentComplete,
            s.next(event).1[2],
        ]);
    }
}

/// The client's input is let through at most once, however often it changes
/// sessions, and not before the listener is attached to one.
pub proof fn law_attachment_is_signalled_once<L>(
    s: ListenerState<L>,
    events: Seq<ListenerEventView<L>>,
)
    requires
        s.runs(events),
    ensures
        forall|i: int, j: int|
            0 <= i < j < s.asked(events).len() ==> !(s.asked(events)[i] is SignalAttachmentComplete
                && s.asked(events)[j] is SignalAttachmentComplete),
        (exists|i: int|
            0 <= i < s.asked(events).len()
                && s.asked(events)[i] is SignalAttachmentComplete) <==> s.attachment_pending
            && !s.after(events).attachment_pending,
        s.after(events).attachment_pending ==> s.attachment_pending,
        s.phase is Starting && s.after(events).phase is Attached ==> !s.after(
            events,
        ).attachment_pending,
    decreases events.len(),
{
    if events.len() > 0 {
        let earlier = events.drop_last();
        law_attachment_is_signalled_once(s, earlier);
        let prev = s.asked(earlier);
        let new = s.after(earlier).next(events.last()).1;
        let all = s.asked(events);
        assert(all == prev + new);
        lemma_step_signals(s.after(earlier), events.last());
        if s.after(earlier).attachment_pending && !s.after(events).attachment_pending {
            assert(all[prev.len() as int + 1] == new[1]);
        }
        if s.attachment_pending && !s.after(earlier).attachment_pending {
            let i = choose|i: int| 0 <= i < prev.len() && prev[i] is SignalAttachmentComplete;
            assert(all[i] == prev[i]);
        }
        assert forall|i: int|
            0 <= i < all.len() && all[i] is SignalAttachmentComplete implies s.attachment_pending
            && !s.after(events).attachment_pending by {
            if i < prev.len() {
                assert(prev[i] is SignalAttachmentComplete);
            } else {
                assert(new[i - prev.len()] is SignalAttachmentComplete);
            }
        }
    }
}

/// A client that may only read never has a session created for it, and a
/// session is created exactly when it does not exist.
pub proof fn law_read_only_never_creates<L>(
    s: ListenerState<L>,
    events: Seq<ListenerEventView<L>>,
)
    requires
        s.runs(events),
    ensures
        forall|i: int|
            0 <= i < s.asked(events).len() ==> (#[trigger] s.asked(
                events,
            )[i] matches ListenerActionView::SpawnSession {
                is_read_only,
                session_exists,
                should_create_new_session,
                ..
            } ==> should_create_new_session == !session_exists && (is_read_only
                ==> !should_create_new_session)),
    decreases events.len(),
{
    if events.len() > 0 {
        law_read_only_never_creates(s, events.drop_last());
    }
}

/// The terminal of a client that is a terminal program is never set up for it.
pub proof fn law_cli_client_sets_up_its_own_terminal<L>(
    s: ListenerState<L>,
    events: Seq<ListenerEventView<L>>,
)
    requires
        s.runs(events),
        s.is_cli_client,
    ensures
        s.after(events).is_cli_client,
        forall|i: int|
            0 <= i < s.asked(events).len() ==> !(#[trigger] s.asked(events)[i] is SendTerminalInit),
    decreases events.len(),
{
    if events.len() > 0 {
        law_cli_client_sets_up_its_own_terminal(s, events.drop_last());
    }
}

/// The listener stays with the session that it is attached to.
pub open spec fn stays<L>(events: Seq<ListenerEventView<L>>) -> bool {
    forall|k: int|
        0 <= k < events.len() ==> #[trigger] events[k] is MessageReceived
            || events[k] is ConfigReloaded
}

/// The action puts something out to the client's terminal.
pub open spec fn shown<L>(action: ListenerActionView<L>) -> bool {
    action is SendTerminalInit || action is SendStdout
}

/// The output of the session that a message brings.
pub open spec fn rendered<L>(event: ListenerEventView<L>) -> Seq<ListenerActionView<L>> {
    match event {
        ListenerEventView::MessageReceived(Some(ServerMessageView::Render { content })) => {
            seq![ListenerActionView::SendStdout(content)]
        },
        _ => seq![],
    }
}

/// The output of the session, in the order in which it comes.
pub open spec fn all_rendered<L>(events: Seq<ListenerEventView<L>>) -> Seq<ListenerActionView<L>>
    decreases events.len(),
{
    if events.len() == 0 {
        seq![]
    } else {
        all_rendered(events.drop_last()) + rendered(events.last())
    }
}

/// What goes before the output of the session: a browser's terminal that is not
/// set up yet is set up, if there is any output.
pub open spec fn set_up<L>(s: ListenerState<L>, output: Seq<ListenerActionView<L>>) -> Seq<
    ListenerActionView<L>,
> {
    if output.len() > 0 && !s.phase->initialized && !s.is_cli_client {
        seq![ListenerActionView::SendTerminalInit]
    } else {
        seq![]
    }
}

/// What goes out to the client's terminal is the output of the session as it is
/// and in order, after the terminal was set up, and nothing else.
pub proof fn law_output_goes_out_in_order<L>(
    s: ListenerState<L>,
    events: Seq<ListenerEventView<L>>,
)
    requires
        s.phase is Attached,
        s.runs(events),
        stays(events),
        s.after(events).phase is Attached,
    ensures
        s.asked(events).filter(|a: ListenerActionView<L>| shown(a)) == set_up(
            s,
            all_rendered(events),
        ) + all_rendered(events),
        s.after(events).phase->initialized == (s.phase->initialized || all_rendered(events).len()
            > 0),
        s.after(events).is_cli_client == s.is_cli_client,
    decreases events.len(),
{
    let is_shown = |a: ListenerActionView<L>| shown(a);
    if events.len() > 0 {
        let earlier = events.drop_last();
        assert(events.last() == events[events.len() - 1]);
        assert(stays(earlier)) by {
            assert forall|k: int| 0 <= k < earlier.len() implies #[trigger] earlier[k]
                is MessageReceived || earlier[k] is ConfigReloaded by {
                assert(earlier[k] == events[k]);
            }
        }
        law_output_goes_out_in_order(s, earlier);
        let mid = s.after(earlier);
        let new = mid.next(events.last()).1;
        Seq::filter_distributes_over_add(s.asked(earlier), new, is_shown);
        lemma_step_shows(mid, events.last());
    } else {
        reveal(Seq::filter);
    }
}

proof fn lemma_step_shows<L>(s: ListenerState<L>, event: ListenerEventView<L>)
    requires
        s.phase is Attached,
        s.accepts(event),
        s.next(event).0.phase is Attached,
    ensures
        s.next(event).1.filter(|a: ListenerActionView<L>| shown(a)) == set_up(s, rendered(event))
            + rendered(event),
{
    let is_shown = |a: ListenerActionView<L>| shown(a);
    let new = s.next(event).1;
    reveal_with_fuel(Seq::filter, 3);
    assert(new.len() <= 2);
    if new.len() == 2 {
        assert(new.drop_last() =~= seq![new[0]]);
        assert(new.drop_last().drop_last() =~= seq![]);
    } else if new.len() == 1 {
        assert(new.drop_last() =~= seq![]);
    }
}

/// A browser's terminal is set up at most once for a session, and before any
/// output of the session reaches it.
pub proof fn law_terminal_is_set_up_once_and_first<L>(
    s: ListenerState<L>,
    events: Seq<ListenerEventView<L>>,
)
    requires
        s.phase matches PhaseView::Attached { initialized: false, .. },
        !s.is_cli_client,
        s.runs(events),
        stays(events),
        s.after(events).phase is Attached,
    ensures
        forall|i: int, j: int|
            0 <= i < j < s.asked(events).len() ==> !(s.asked(events)[i] is SendTerminalInit
                && s.asked(events)[j] is SendTerminalInit),
        forall|i: int|
            0 <= i < s.asked(events).len() && s.asked(events)[i] is SendStdout ==> exists|k: int|
                0 <= k < i && s.asked(events)[k] is SendTerminalInit,
        (exists|k: int|
            0 <= k < s.asked(events).len() && s.asked(events)[k] is SendTerminalInit) <==> s.after(
            events,
        ).phase->initialized,
        !s.after(events).is_cli_client,
    decreases events.len(),
{
    if events.len() > 0 {
        let earlier = events.drop_last();
        assert(events.last() == events[events.len() - 1]);
        assert(stays(earlier)) by {
            assert forall|k: int| 0 <= k < earlier.len() implies #[trigger] earlier[k]
                is MessageReceived || earlier[k] is ConfigReloaded by {
                assert(earlier[k] == events[k]);
            }
        }
        law_terminal_is_set_up_once_and_first(s, earlier);
        let prev = s.asked(earlier);
        let new = s.after(earlier).next(events.last()).1;
        let all = s.asked(events);
        assert(all == prev + new);
        if s.after(earlier).phase->initialized {
            let k = choose|k: int| 0 <= k < prev.len() && prev[k] is SendTerminalInit;
            assert(all[k] is SendTerminalInit);
        } else {
            if s.after(events).phase->initialized {
                assert(all[prev.len() as int] == new[0]);
                assert(new[0] is SendTerminalInit);
            }
        }
        assert forall|i: int|
            0 <= i < all.len() && all[i] is SendStdout implies exists|k: int|
            0 <= k < i && all[k] is SendTerminalInit by {
            if i < prev.len() {
                assert(prev[i] is SendStdout);
                let k = choose|k: int| 0 <= k < i && prev[k] is SendTerminalInit;
                assert(all[k] is SendTerminalInit);
            } else {
                assert(new[i - prev.len()] is SendStdout);
            }
        }
        assert forall|k: int| 0 <= k < all.len() && all[k] is SendTerminalInit implies s.after(
            events,
        ).phase->initialized by {
            if k < prev.len() {
                assert(prev[k] is SendTerminalInit);
            } else {
                assert(new[k - prev.len()] is SendTerminalInit);
            }
        }
    }
}

/// `n` unreadable messages in a row.
pub open spec fn flood<L>(n: nat) -> Seq<ListenerEventView<L>> {
    Seq::new(n, |i: int| ListenerEventView::MessageReceived(None))
}

/// The connection outlives every row of unreadable messages that is shorter
/// than the limit, with nothing sent, and not the row that reaches it.
pub proof fn law_unreadable_messages_end_the_connection_at_the_limit<L>(
    s: ListenerState<L>,
    n: nat,
)
    requires
        s.phase is Attached,
        s.phase->unknown == 0,
        !s.phase->reloading,
        n <= UNKNOWN_MESSAGE_LIMIT,
    ensures
        s.runs(flood(n)),
        n < UNKNOWN_MESSAGE_LIMIT ==> s.asked(flood(n)) == Seq::<ListenerActionView<L>>::empty()
            && s.after(flood(n)) == s.in_phase(
            PhaseView::Attached {
                initialized: s.phase->initialized,
                unknown: n,
                reloading: false,
            },
        ),
        n == UNKNOWN_MESSAGE_LIMIT ==> s.asked(flood(n)) == seq![
            ListenerActionView::<L>::SendStdout(flooded_text()),
            ListenerActionView::<L>::CloseConnection,
        ] && s.after(flood(n)).phase is Finished,
    decreases n,
{
    if n > 0 {
        let fewer = (n - 1) as nat;
        law_unreadable_messages_end_the_connection_at_the_limit(s, fewer);
        assert(flood::<L>(n).drop_last() =~= flood(fewer));
    }
}

/// Any message that can be read starts the count of unreadable ones anew.
pub proof fn law_readable_message_resets_the_count<L>(
    s: ListenerState<L>,
    message: ServerMessageView<L>,
)
    requires
        s.accepts(ListenerEventView::MessageReceived(Some(message))),
    ensures
        s.next(
            ListenerEventView::MessageReceived(Some(message)),
        ).0.phase matches PhaseView::Attached { unknown, .. } ==> unknown == 0,
{
}

/// How a listener stops. The client is shown why and its connection is closed,
/// unless it could not even be told what the client asked for. A listener that is
/// attached stops when the session exits or its server sends nothing readable.
pub proof fn law_how_a_listener_stops<L>(s: ListenerState<L>, event: ListenerEventView<L>)
    requires
        s.accepts(event),
        s.next(event).0.phase is Finished,
    ensures
        match s.phase {
            PhaseView::Starting => event matches ListenerEventView::InitialConnection(Err(_))
                && s.next(event).1.len() == 0,
            PhaseView::Attached { .. } => {
                ||| event matches ListenerEventView::MessageReceived(
                    Some(ServerMessageView::Exit { exit_reason }),
                ) && s.next(event).1.len() == 3 && s.next(event).1[0] is SendStdout && s.next(
                    event,
                ).1[1] == (if exit_reason is KickedByHost {
                    ListenerActionView::<L>::CloseConnectionKicked
                } else {
                    ListenerActionView::<L>::CloseConnection
                }) && s.next(event).1[2] is SendClientExited
                ||| event matches ListenerEventView::MessageReceived(None) && s.next(event).1
                    == seq![
                    ListenerActionView::<L>::SendStdout(flooded_text()),
                    ListenerActionView::<L>::CloseConnection,
                ]
            },
            _ => s.next(event).1.len() == 2 && s.next(event).1[0] is SendStdout && s.next(
                event,
            ).1[1] is CloseConnection,
        },
{
}

/// The server is told that the client is gone at most once, and as the last
/// thing that the listener asks for.
pub proof fn law_client_exit_is_announced_last<L>(
    s: ListenerState<L>,
    events: Seq<ListenerEventView<L>>,
)
    requires
        s.runs(events),
    ensures
        forall|i: int|
            0 <= i < s.asked(events).len() && #[trigger] s.asked(events)[i] is SendClientExited ==> i
                == s.asked(events).len() - 1 && s.after(events).phase is Finished,
    decreases events.len(),
{
    if events.len() > 0 {
        let earlier = events.drop_last();
        law_client_exit_is_announced_last(s, earlier);
        let prev = s.asked(earlier);
        let new = s.after(earlier).next(events.last()).1;
        let all = s.asked(events);
        assert(all == prev + new);
        assert forall|i: int|
            0 <= i < all.len() && #[trigger] all[i] is SendClientExited implies i == all.len() - 1
            && s.after(events).phase is Finished by {
            if i < prev.len() {
                assert(prev[i] is SendClientExited);
            } else {
                assert(new[i - prev.len()] is SendClientExited);
            }
        }
    }
}

/// The action at `i` is not the first step of looking up or starting a session:
/// the name is checked right before it is looked up, and a session is looked up
/// right before it is started, by the same name if that is a plain one.
pub open spec fn prepared<L>(actions: Seq<ListenerActionView<L>>, i: int) -> bool {
    match actions[i] {
        ListenerActionView::InspectSession(name) => i > 0 && actions[i - 1]
            == ListenerActionView::<L>::CheckName(name),
        ListenerActionView::SpawnSession { session_name, .. } => i > 0 && (actions[i
            - 1] matches ListenerActionView::InspectSession(name) && (plain_name(name)
            ==> session_name == name)),
        _ => true,
    }
}

proof fn lemma_step_prepares<L>(s: ListenerState<L>, event: ListenerEventView<L>)
    requires
        s.accepts(event),
    ensures
        ({
            let (t, new) = s.next(event);
            &&& forall|i: int|
                0 <= i < new.len() ==> (#[trigger] new[i] matches ListenerActionView::InspectSession(
                    name,
                ) ==> i == 0 && s.phase is Checking && s.phase->name == name)
            &&& forall|i: int|
                0 <= i < new.len() ==> (#[trigger] new[i] matches ListenerActionView::SpawnSession {
                    session_name,
                    ..
                } ==> i == 0 && s.phase is Inspecting && (plain_name(s.phase->checked)
                    ==> session_name == s.phase->checked))
            &&& t.phase matches PhaseView::Checking { name, .. } ==> new
                == seq![ListenerActionView::<L>::CheckName(name)]
            &&& t.phase matches PhaseView::Inspecting { checked, .. } ==> new
                == seq![ListenerActionView::<L>::InspectSession(checked)]
        }),
{
}

/// A session is looked up only by a name that was checked just before, and
/// started only after it was looked up. If the name is a plain one, the session
/// that is started goes by the very name that was checked.
pub proof fn law_sessions_are_checked_before_they_start<L>(
    s: ListenerState<L>,
    events: Seq<ListenerEventView<L>>,
)
    requires
        s.phase is Starting,
        s.runs(events),
    ensures
        forall|i: int| 0 <= i < s.asked(events).len() ==> #[trigger] prepared(s.asked(events), i),
        s.after(events).phase matches PhaseView::Checking { name, .. } ==> s.asked(events).len() > 0
            && s.asked(events).last() == ListenerActionView::<L>::CheckName(name),
        s.after(events).phase matches PhaseView::Inspecting { checked, .. } ==> s.asked(
            events,
        ).len() > 0 && s.asked(events).last() == ListenerActionView::<L>::InspectSession(checked),
    decreases events.len(),
{
    if events.len() > 0 {
        let earlier = events.drop_last();
        law_sessions_are_checked_before_they_start(s, earlier);
        lemma_step_prepares(s.after(earlier), events.last());
        let prev = s.asked(earlier);
        let new = s.after(earlier).next(events.last()).1;
        let all = s.asked(events);
        assert(all == prev + new);
        assert forall|i: int| 0 <= i < all.len() implies #[trigger] prepared(all, i) by {
            if i < prev.len() {
                assert(prepared(prev, i));
            } else {
                assert(all[i] == new[i - prev.len()]);
            }
        }
    }
}

/// A client that asks for a session by a name that stands the check gets that
/// session, started with the layout that it asked for, whether it asks when it
/// connects or when it switches sessions.
pub proof fn law_the_session_asked_for_is_started<L>(
    s: ListenerState<L>,
    name: Seq<char>,
    layout: Option<L>,
    is_read_only: bool,
    session_exists: Option<bool>,
)
    requires
        s.phase is Starting || (s.phase is Attached && !s.phase->reloading),
        !is_read_only || session_exists == Some(true),
    ensures
        ({
            let info = ConnectToSessionView { name: Some(name), layout };
            let request = if s.phase is Starting {
                ListenerEventView::InitialConnection(Ok(Some(info)))
            } else {
                ListenerEventView::MessageReceived(
                    Some(ServerMessageView::SwitchSession { connect_to_session: info }),
                )
            };
            let inspected = ListenerEventView::SessionInspected {
                session_name: name,
                is_read_only,
                session_exists,
            };
            let events = seq![request, ListenerEventView::NameChecked(Ok(())), inspected];
            &&& s.runs(events)
            &&& s.asked(events) == seq![
                ListenerActionView::CheckName(name),
                ListenerActionView::InspectSession(name),
                ListenerActionView::SpawnSession {
                    session_name: name,
                    is_read_only,
                    session_exists: session_exists == Some(true),
                    should_create_new_session: session_exists != Some(true),
                    initial_layout: layout,
                },
            ]
        }),
{
    let info = ConnectToSessionView { name: Some(name), layout };
    let request = if s.phase is Starting {
        ListenerEventView::InitialConnection(Ok(Some(info)))
    } else {
        ListenerEventView::MessageReceived(
            Some(ServerMessageView::SwitchSession { connect_to_session: info }),
        )
    };
    let inspected = ListenerEventView::SessionInspected {
        session_name: name,
        is_read_only,
        session_exists,
    };
    let checked = ListenerEventView::NameChecked(Ok(()));
    let events = seq![request, checked, inspected];
    assert(events.drop_last() =~= seq![request, checked]);
    assert(events.drop_last().drop_last() =~= seq![request]);
    assert(events.drop_last().drop_last().drop_last() =~= seq![]);
    reveal_with_fuel(ListenerState::after, 4);
    reveal_with_fuel(ListenerState::asked, 4);
    reveal_with_fuel(ListenerState::runs, 4);
}

} // verus!
