//! What holds of every run of a terminal connection.

use vstd::prelude::*;
use vstd::utf8::encode_utf8;

use super::session::{
    TerminalAction, TerminalActionView, TerminalEvent, TerminalEventView, TerminalState,
    actions_view, disables_kitty_keyboard,
};

verus! {

impl TerminalState {
    /// The stage after `events`.
    pub open spec fn after(self, events: Seq<TerminalEventView>) -> Self
        decreases events.len(),
    {
        if events.len() == 0 {
            self
        } else {
            self.after(events.drop_last()).next(events.last()).0
        }
    }

    /// All that is called for in the course of `events`, in order.
    pub open spec fn asked(self, events: Seq<TerminalEventView>) -> Seq<TerminalActionView>
        decreases events.len(),
    {
        if events.len() == 0 {
            seq![]
        } else {
            self.asked(events.drop_last()) + self.after(events.drop_last()).next(events.last()).1
        }
    }

    /// Each of `events` can happen when its turn comes.
    pub open spec fn runs(self, events: Seq<TerminalEventView>) -> bool
        decreases events.len(),
    {
        events.len() == 0 || (self.runs(events.drop_last()) && self.after(
            events.drop_last(),
        ).accepts(events.last()))
    }
}

/// What is typed by way of an event, if there still is such a client.
pub open spec fn typed(event: TerminalEventView) -> Seq<Seq<u8>> {
    match event {
        TerminalEventView::Binary { data, client_known: true } => seq![data],
        TerminalEventView::Text { text, client_known: true } => seq![encode_utf8(text)],
        _ => seq![],
    }
}

/// All that is typed in the course of `events`, in order.
pub open spec fn all_typed(events: Seq<TerminalEventView>) -> Seq<Seq<u8>>
    decreases events.len(),
{
    if events.len() == 0 {
        seq![]
    } else {
        all_typed(events.drop_last()) + typed(events.last())
    }
}

/// The input that is handed to the parsers, in order.
pub open spec fn parsed(actions: Seq<TerminalActionView>) -> Seq<Seq<u8>>
    decreases actions.len(),
{
    if actions.len() == 0 {
        seq![]
    } else {
        let earlier = parsed(actions.drop_last());
        match actions.last() {
            TerminalActionView::ParseInput { data, .. } => earlier.push(data),
            _ => earlier,
        }
    }
}

proof fn lemma_parsed_adds_up(a: Seq<TerminalActionView>, b: Seq<TerminalActionView>)
    ensures
        parsed(a + b) == parsed(a) + parsed(b),
    decreases b.len(),
{
    if b.len() == 0 {
        assert(a + b =~= a);
    } else {
        assert((a + b).drop_last() =~= a + b.drop_last());
        lemma_parsed_adds_up(a, b.drop_last());
    }
}

proof fn lemma_step_parses_what_is_typed(s: TerminalState, event: TerminalEventView)
    requires
        s.accepts(event),
    ensures
        parsed(s.next(event).1) == typed(event),
{
    let new = s.next(event).1;
    reveal_with_fuel(parsed, 6);
    if new.len() > 0 {
        assert(new.drop_last().len() == new.len() - 1);
    }
}

/// The parsers get exactly what the client typed while it was known, in order:
/// nothing of it is lost, repeated or made up.
pub proof fn law_input_is_parsed_in_order(s: TerminalState, events: Seq<TerminalEventView>)
    requires
        s.runs(events),
    ensures
        parsed(s.asked(events)) == all_typed(events),
    decreases events.len(),
{
    if events.len() > 0 {
        let earlier = events.drop_last();
        law_input_is_parsed_in_order(s, earlier);
        lemma_step_parses_what_is_typed(s.after(earlier), events.last());
        lemma_parsed_adds_up(s.asked(earlier), s.after(earlier).next(events.last()).1);
    }
}

/// Input that a client sends which is not known any more is dropped, and the
/// connection goes on.
pub proof fn law_input_of_unknown_client_is_dropped(s: TerminalState, event: TerminalEventView)
    requires
        s.accepts(event),
        event matches TerminalEventView::Binary { client_known: false, .. } || event matches
            TerminalEventView::Text { client_known: false, .. },
    ensures
        s.next(event) == (s, Seq::<TerminalActionView>::empty()),
{
}

/// A connection that is not let in does no more than look the client up. The
/// server hears nothing of it.
pub proof fn law_refused_connection_leaves_no_trace(events: Seq<TerminalEventView>)
    requires
        TerminalState::Unverified.runs(events),
        TerminalState::Unverified.after(events) is Refused,
    ensures
        forall|i: int|
            0 <= i < TerminalState::Unverified.asked(events).len()
                ==> #[trigger] TerminalState::Unverified.asked(events)[i] is LookUpClient,
{
    lemma_nothing_but_lookups(events);
}

proof fn lemma_nothing_but_lookups(events: Seq<TerminalEventView>)
    requires
        TerminalState::Unverified.runs(events),
        ({
            let t = TerminalState::Unverified.after(events);
            t is Unverified || t is Owned || t is Refused
        }),
    ensures
        forall|i: int|
            0 <= i < TerminalState::Unverified.asked(events).len()
                ==> #[trigger] TerminalState::Unverified.asked(events)[i] is LookUpClient,
    decreases events.len(),
{
    if events.len() > 0 {
        lemma_nothing_but_lookups(events.drop_last());
    }
}

/// A connection is let in exactly if its client identity is its own and there is
/// such a client.
pub proof fn law_who_is_let_in(owned: bool, known: bool)
    ensures
        TerminalState::Unverified.next(TerminalEventView::OwnershipChecked(owned)).0 is Owned
            <==> owned,
        TerminalState::Unverified.next(TerminalEventView::OwnershipChecked(owned)).0 is Refused
            <==> !owned,
        TerminalState::Owned.next(TerminalEventView::ClientLookedUp(known)).0 is SettingUp
            <==> known,
        TerminalState::Owned.next(TerminalEventView::ClientLookedUp(known)).0 is Refused
            <==> !known,
{
}

/// When a connection ends, the server is told that the client is gone. That is
/// the last thing that is done, and it is done once. As long as the connection
/// has not ended, the server is told no such thing.
pub proof fn law_client_exit_is_reported_once_and_last(
    s: TerminalState,
    events: Seq<TerminalEventView>,
)
    requires
        !s.is_over(),
        s.runs(events),
    ensures
        ({
            let asked = s.asked(events);
            &&& s.after(events) is Finished ==> asked.len() > 0 && asked.last() is SendClientExited
            &&& forall|i: int|
                0 <= i < asked.len() && #[trigger] asked[i] is SendClientExited ==> i == asked.len()
                    - 1 && s.after(events) is Finished
        }),
    decreases events.len(),
{
    if events.len() > 0 {
        let earlier = events.drop_last();
        law_client_exit_is_reported_once_and_last(s, earlier);
        let prev = s.asked(earlier);
        let new = s.after(earlier).next(events.last()).1;
        let asked = s.asked(events);
        assert(asked == prev + new);
        assert forall|i: int|
            0 <= i < asked.len() && #[trigger] asked[i] is SendClientExited implies i == asked.len()
            - 1 && s.after(events) is Finished by {
            if i < prev.len() {
                assert(prev[i] is SendClientExited);
            } else {
                assert(new[i - prev.len()] is SendClientExited);
            }
        }
    }
}

/// The client is forgotten exactly when it closes the connection itself, just
/// before the server is told. If the connection breaks off, the client is kept.
pub proof fn law_only_a_close_forgets_the_client(s: TerminalState, event: TerminalEventView)
    requires
        s.accepts(event),
    ensures
        s.next(event).0 is Finished <==> event is Close || event is Ended,
        event is Close ==> s.next(event).1 == seq![
            TerminalActionView::RemoveClient,
            TerminalActionView::SendClientExited,
        ],
        !(event is Close) ==> forall|i: int|
            0 <= i < s.next(event).1.len() ==> !(#[trigger] s.next(event).1[i] is RemoveClient),
{
}

/// No input is parsed before the attachment of the client is settled.
pub proof fn law_no_input_before_attachment(events: Seq<TerminalEventView>)
    requires
        TerminalState::Unverified.runs(events),
        forall|k: int| 0 <= k < events.len() ==> !(#[trigger] events[k] is AttachmentSettled),
    ensures
        ({
            let t = TerminalState::Unverified.after(events);
            !(t is Running) && !(t is Finished)
        }),
        parsed(TerminalState::Unverified.asked(events)).len() == 0,
    decreases events.len(),
{
    if events.len() > 0 {
        let earlier = events.drop_last();
        assert(events.last() == events[events.len() - 1]);
        assert forall|k: int| 0 <= k < earlier.len() implies !(#[trigger] earlier[k]
            is AttachmentSettled) by {
            assert(earlier[k] == events[k]);
        }
        law_no_input_before_attachment(earlier);
        let mid = TerminalState::Unverified.after(earlier);
        lemma_step_parses_what_is_typed(mid, events.last());
        lemma_parsed_adds_up(
            TerminalState::Unverified.asked(earlier),
            mid.next(events.last()).1,
        );
    }
}

/// Once the configuration has been read, all input is parsed by what it said of
/// the keyboard protocol then.
pub proof fn law_keyboard_choice_is_kept(
    support: Option<bool>,
    events: Seq<TerminalEventView>,
)
    requires
        TerminalState::SettingUp.next(TerminalEventView::KeyboardConfigured(support)).0.runs(
            events,
        ),
    ensures
        ({
            let s = TerminalState::SettingUp.next(
                TerminalEventView::KeyboardConfigured(support),
            ).0;
            &&& match s.after(events) {
                TerminalState::Attaching { kitty_keyboard_disabled }
                | TerminalState::Running { kitty_keyboard_disabled } => kitty_keyboard_disabled
                    == disables_kitty_keyboard(support),
                TerminalState::Finished => true,
                _ => false,
            }
            &&& forall|i: int|
                0 <= i < s.asked(events).len() ==> (#[trigger] s.asked(events)[i] matches
                    TerminalActionView::ParseInput { kitty_keyboard_disabled, .. }
                    ==> kitty_keyboard_disabled == disables_kitty_keyboard(support))
        }),
    decreases events.len(),
{
    if events.len() > 0 {
        law_keyboard_choice_is_kept(support, events.drop_last());
    }
}

/// Which events can happen at which stage.
pub proof fn law_what_a_terminal_waits_for(s: TerminalState, event: TerminalEventView)
    ensures
        s.accepts(event) == match event {
            TerminalEventView::OwnershipChecked(_) => s is Unverified,
            TerminalEventView::ClientLookedUp(_) => s is Owned,
            TerminalEventView::KeyboardConfigured(_) => s is SettingUp,
            TerminalEventView::AttachmentSettled => s is Attaching,
            TerminalEventView::Binary { .. }
            | TerminalEventView::Text { .. }
            | TerminalEventView::Ping(_)
            | TerminalEventView::Pong
            | TerminalEventView::Close
            | TerminalEventView::Ended => s is Running,
        },
        s.is_over() <==> s is Refused || s is Finished,
        s.is_over() ==> !s.accepts(event),
{
}

/// The event neither closes the connection nor breaks it off.
pub open spec fn keeps_running(event: TerminalEventView) -> bool {
    event is Binary || event is Text || event is Ping || event is Pong
}

/// A running connection stays running, with the keyboard choice that it has, until
/// the client closes it or it breaks off.
pub proof fn law_a_running_terminal_stays_running(s: TerminalState, event: TerminalEventView)
    requires
        s is Running,
        s.accepts(event),
    ensures
        !(event is Close) && !(event is Ended) ==> s.next(event).0 == s,
        event is Close || event is Ended ==> s.next(event).0 is Finished,
{
}

/// However much is typed and pinged, a running connection takes it all in, and can
/// still be closed or break off afterwards.
pub proof fn law_a_running_terminal_takes_everything_in(
    s: TerminalState,
    events: Seq<TerminalEventView>,
)
    requires
        s is Running,
        forall|k: int| 0 <= k < events.len() ==> keeps_running(#[trigger] events[k]),
    ensures
        s.runs(events),
        s.after(events) == s,
        s.after(events).accepts(TerminalEventView::Close),
        s.after(events).accepts(TerminalEventView::Ended),
    decreases events.len(),
{
    if events.len() > 0 {
        let earlier = events.drop_last();
        assert forall|k: int| 0 <= k < earlier.len() implies keeps_running(
            #[trigger] earlier[k],
        ) by {
            assert(earlier[k] == events[k]);
        }
        assert(keeps_running(events[events.len() - 1]));
        law_a_running_terminal_takes_everything_in(s, earlier);
    }
}

/// What is typed by a known client, as bytes or as text in UTF-8, is parsed as it
/// is and by the keyboard choice of the connection; a ping is answered with what it
/// holds; nothing else comes of either, or of a pong.
pub proof fn law_what_a_running_terminal_does(
    kitty_keyboard_disabled: bool,
    data: Seq<u8>,
    text: Seq<char>,
    client_known: bool,
)
    ensures
        ({
            let s = TerminalState::Running { kitty_keyboard_disabled };
            let typed_bytes = s.next(TerminalEventView::Binary { data, client_known }).1;
            let typed_text = s.next(TerminalEventView::Text { text, client_known }).1;
            &&& client_known ==> typed_bytes == seq![
                TerminalActionView::ParseInput { data, kitty_keyboard_disabled },
            ]
            &&& client_known ==> typed_text == seq![
                TerminalActionView::ParseInput { data: encode_utf8(text), kitty_keyboard_disabled },
            ]
            &&& !client_known ==> typed_bytes.len() == 0 && typed_text.len() == 0
            &&& s.next(TerminalEventView::Ping(data)).1 == seq![TerminalActionView::SendPong(data)]
            &&& s.next(TerminalEventView::Pong).1.len() == 0
            &&& s.next(TerminalEventView::Ended).1 == seq![TerminalActionView::SendClientExited]
            &&& s.next(TerminalEventView::Close).1 == seq![
                TerminalActionView::RemoveClient,
                TerminalActionView::SendClientExited,
            ]
        }),
{
}

/// The connection of a known client, made under its own identity, comes to run.
/// Before that it is set up in one order only, and the keyboard protocol is off
/// only if the configuration turns it off.
pub proof fn law_how_a_terminal_comes_to_run(support: Option<bool>)
    ensures
        ({
            let events = seq![
                TerminalEventView::OwnershipChecked(true),
                TerminalEventView::ClientLookedUp(true),
                TerminalEventView::KeyboardConfigured(support),
                TerminalEventView::AttachmentSettled,
            ];
            &&& TerminalState::Unverified.runs(events)
            &&& TerminalState::Unverified.after(events) == (TerminalState::Running {
                kitty_keyboard_disabled: support is Some && !support->0,
            })
            &&& TerminalState::Unverified.asked(events) == seq![
                TerminalActionView::LookUpClient,
                TerminalActionView::RegisterTerminalChannel,
                TerminalActionView::StartListener,
                TerminalActionView::StartRendering,
                TerminalActionView::RegisterCancellation,
                TerminalActionView::ReadKeyboardConfig,
                TerminalActionView::AwaitAttachment,
            ]
        }),
{
    let events = seq![
        TerminalEventView::OwnershipChecked(true),
        TerminalEventView::ClientLookedUp(true),
        TerminalEventView::KeyboardConfigured(support),
        TerminalEventView::AttachmentSettled,
    ];
    assert(events.drop_last() =~= events.take(3));
    assert(events.take(3).drop_last() =~= events.take(2));
    assert(events.take(2).drop_last() =~= events.take(1));
    assert(events.take(1).drop_last() =~= seq![]);
    reveal_with_fuel(TerminalState::after, 5);
    reveal_with_fuel(TerminalState::asked, 5);
    reveal_with_fuel(TerminalState::runs, 5);
}

/// A connection under a foreign identity, or of an unknown client, is refused
/// without anything being done.
pub proof fn law_how_a_terminal_is_refused()
    ensures
        TerminalState::Unverified.next(TerminalEventView::OwnershipChecked(false)) == (
            TerminalState::Refused,
            Seq::<TerminalActionView>::empty(),
        ),
        TerminalState::Owned.next(TerminalEventView::ClientLookedUp(false)) == (
            TerminalState::Refused,
            Seq::<TerminalActionView>::empty(),
        ),
{
}

/// Every call of `step` on a connection does what comes of its event.
pub proof fn law_terminal_steps_as_stated(
    s: TerminalState,
    event: TerminalEvent,
    r: (TerminalState, Vec<TerminalAction>),
)
    requires
        call_ensures(TerminalState::step, (s, event), r),
    ensures
        r.0 == s.next(event@).0,
        r.1@.len() == s.next(event@).1.len(),
        forall|i: int| 0 <= i < r.1@.len() ==> (#[trigger] r.1@[i])@ == s.next(event@).1[i],
{
    assert forall|i: int| 0 <= i < r.1@.len() implies (#[trigger] r.1@[i])@ == s.next(
        event@,
    ).1[i] by {
        assert(actions_view(r.1@)[i] == r.1@[i]@);
    }
}

} // verus!
