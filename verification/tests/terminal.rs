use zellij_web_client::terminal::session::{
    kitty_keyboard_disabled, TerminalAction, TerminalEvent, TerminalState,
};

fn running(support: Option<bool>) -> TerminalState {
    let mut state = TerminalState::new();
    for event in [
        TerminalEvent::OwnershipChecked(true),
        TerminalEvent::ClientLookedUp(true),
        TerminalEvent::KeyboardConfigured(support),
        TerminalEvent::AttachmentSettled,
    ] {
        state = state.step(event).0;
    }
    state
}

fn binary(data: &[u8], client_known: bool) -> TerminalEvent {
    TerminalEvent::Binary {
        data: data.to_vec(),
        client_known,
    }
}

fn parsed(data: &[u8], kitty_keyboard_disabled: bool) -> TerminalAction {
    TerminalAction::ParseInput {
        data: data.to_vec(),
        kitty_keyboard_disabled,
    }
}

#[test]
fn keyboard_protocol_is_off_only_if_configured_so() {
    assert!(kitty_keyboard_disabled(Some(false)));
    assert!(!kitty_keyboard_disabled(Some(true)));
    assert!(!kitty_keyboard_disabled(None));
}

#[test]
fn terminal_of_a_known_client_is_set_up_step_by_step() {
    let (state, actions) = TerminalState::new().step(TerminalEvent::OwnershipChecked(true));
    assert_eq!(state, TerminalState::Owned);
    assert_eq!(actions, vec![TerminalAction::LookUpClient]);
    let (state, actions) = state.step(TerminalEvent::ClientLookedUp(true));
    assert_eq!(state, TerminalState::SettingUp);
    assert_eq!(
        actions,
        vec![
            TerminalAction::RegisterTerminalChannel,
            TerminalAction::StartListener,
            TerminalAction::StartRendering,
            TerminalAction::RegisterCancellation,
            TerminalAction::ReadKeyboardConfig,
        ]
    );
    let (state, actions) = state.step(TerminalEvent::KeyboardConfigured(None));
    assert_eq!(actions, vec![TerminalAction::AwaitAttachment]);
    let (state, actions) = state.step(TerminalEvent::AttachmentSettled);
    assert_eq!(actions, vec![]);
    assert_eq!(
        state,
        TerminalState::Running {
            kitty_keyboard_disabled: false
        }
    );
}

#[test]
fn terminal_of_a_foreign_or_unknown_client_is_refused() {
    assert_eq!(
        TerminalState::new().step(TerminalEvent::OwnershipChecked(false)),
        (TerminalState::Refused, vec![])
    );
    assert_eq!(
        TerminalState::Owned.step(TerminalEvent::ClientLookedUp(false)),
        (TerminalState::Refused, vec![])
    );
}

#[test]
fn bytes_and_text_are_parsed_alike() {
    let state = running(Some(false));
    assert_eq!(
        state.step(binary(b"\x1b[A", true)),
        (state, vec![parsed(b"\x1b[A", true)])
    );
    let text = TerminalEvent::Text {
        text: "aé€".to_string(),
        client_known: true,
    };
    assert_eq!(
        state.step(text),
        (state, vec![parsed(&[0x61, 0xc3, 0xa9, 0xe2, 0x82, 0xac], true)])
    );
    let state = running(Some(true));
    assert_eq!(state.step(binary(b"x", true)), (state, vec![parsed(b"x", false)]));
}

#[test]
fn input_of_an_unknown_client_is_dropped() {
    let state = running(None);
    assert_eq!(state.step(binary(b"x", false)), (state, vec![]));
    let text = TerminalEvent::Text {
        text: "x".to_string(),
        client_known: false,
    };
    assert_eq!(state.step(text), (state, vec![]));
}

#[test]
fn terminal_answers_pings_only() {
    let state = running(None);
    assert_eq!(
        state.step(TerminalEvent::Ping(vec![9])),
        (state, vec![TerminalAction::SendPong(vec![9])])
    );
    assert_eq!(state.step(TerminalEvent::Pong), (state, vec![]));
}

#[test]
fn closed_terminal_forgets_its_client_and_a_broken_one_does_not() {
    assert_eq!(
        running(None).step(TerminalEvent::Close),
        (
            TerminalState::Finished,
            vec![TerminalAction::RemoveClient, TerminalAction::SendClientExited]
        )
    );
    assert_eq!(
        running(None).step(TerminalEvent::Ended),
        (TerminalState::Finished, vec![TerminalAction::SendClientExited])
    );
}

#[test]
fn terminal_expects_each_event_at_its_stage() {
    let fresh = TerminalState::new();
    assert!(fresh.expects(&TerminalEvent::OwnershipChecked(true)));
    assert!(!fresh.expects(&TerminalEvent::Close));
    assert!(running(None).expects(&binary(b"x", true)));
    assert!(running(None).expects(&TerminalEvent::Ended));
    assert!(!running(None).expects(&TerminalEvent::AttachmentSettled));
    assert!(!TerminalState::Finished.expects(&TerminalEvent::Ended));
    assert!(!running(None).is_finished());
    assert!(TerminalState::Refused.is_finished());
    assert!(TerminalState::Finished.is_finished());
}
