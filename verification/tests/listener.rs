use zellij_web_client::config::{config_broadcast, reload_config_from_disk, ConfigDelivery};
use zellij_web_client::listener::machine::ServerListener;
use zellij_web_client::listener::messages::{
    ConnectToSession, ControlNotice, ListenerAction, ListenerEvent, ServerMessage,
};
use zellij_web_client::notices::{
    bad_name_notice, denied_notice, flooded_notice, handle_exit_reason, no_name_notice,
    not_started_notice, ExitReason,
};

type Listener = ServerListener<String>;
type Event = ListenerEvent<String>;
type Action = ListenerAction<String>;
type Message = ServerMessage<String>;

fn to(name: Option<&str>, layout: Option<&str>) -> ConnectToSession<String> {
    ConnectToSession {
        name: name.map(str::to_string),
        layout: layout.map(str::to_string),
    }
}

fn received(message: Message) -> Event {
    ListenerEvent::MessageReceived(Some(message))
}

fn inspected(name: &str, is_read_only: bool, session_exists: Option<bool>) -> Event {
    ListenerEvent::SessionInspected {
        session_name: name.to_string(),
        is_read_only,
        session_exists,
    }
}

fn switched(name: &str) -> Action {
    ListenerAction::SendControl(ControlNotice::SwitchedSession {
        new_session_name: name.to_string(),
    })
}

/// Runs a new listener through `events`, and tells the actions of the last.
fn run(mut listener: Listener, events: Vec<Event>) -> (Listener, Vec<Action>) {
    let mut actions = vec![];
    for event in events {
        assert!(!listener.is_finished());
        (listener, actions) = listener.step(event);
    }
    (listener, actions)
}

fn attached(is_cli_client: bool, has_config_file: bool) -> Listener {
    run(
        ServerListener::new(is_cli_client, has_config_file, true),
        vec![
            ListenerEvent::InitialConnection(Ok(Some(to(Some("work"), None)))),
            ListenerEvent::NameChecked(Ok(())),
            inspected("work", false, Some(true)),
            ListenerEvent::SessionSpawned(Ok(())),
        ],
    )
    .0
}

#[test]
fn named_session_is_checked_inspected_and_attached() {
    let listener: Listener = ServerListener::new(false, true, true);
    let (listener, actions) = listener.step(ListenerEvent::InitialConnection(Ok(Some(to(
        Some("work"),
        Some("tall"),
    )))));
    assert_eq!(actions, vec![ListenerAction::CheckName("work".to_string())]);
    let (listener, actions) = listener.step(ListenerEvent::NameChecked(Ok(())));
    assert_eq!(actions, vec![ListenerAction::InspectSession("work".to_string())]);
    let (listener, actions) = listener.step(inspected("work", false, Some(false)));
    assert_eq!(
        actions,
        vec![ListenerAction::SpawnSession {
            session_name: "work".to_string(),
            is_read_only: false,
            session_exists: false,
            should_create_new_session: true,
            initial_layout: Some("tall".to_string()),
        }]
    );
    let (listener, actions) = listener.step(ListenerEvent::SessionSpawned(Ok(())));
    assert_eq!(
        actions,
        vec![
            ListenerAction::SendHostQuerySeeds,
            ListenerAction::SignalAttachmentComplete,
            switched("work"),
        ]
    );
    assert!(!listener.is_finished());
}

#[test]
fn session_without_a_name_gets_one() {
    for info in [None, Some(to(None, None))] {
        let listener: Listener = ServerListener::new(false, true, true);
        let (listener, actions) = listener.step(ListenerEvent::InitialConnection(Ok(info)));
        assert_eq!(actions, vec![ListenerAction::GenerateName]);
        let (_, actions) = listener.step(ListenerEvent::NameGenerated(Some("elk".to_string())));
        assert_eq!(actions, vec![ListenerAction::CheckName("elk".to_string())]);
    }
}

#[test]
fn layout_outlasts_the_making_up_of_a_name() {
    let (_, actions) = run(
        ServerListener::new(false, true, true),
        vec![
            ListenerEvent::InitialConnection(Ok(Some(to(None, Some("tall"))))),
            ListenerEvent::NameGenerated(Some("elk".to_string())),
            ListenerEvent::NameChecked(Ok(())),
            inspected("elk", false, None),
        ],
    );
    assert_eq!(
        actions,
        vec![ListenerAction::SpawnSession {
            session_name: "elk".to_string(),
            is_read_only: false,
            session_exists: false,
            should_create_new_session: true,
            initial_layout: Some("tall".to_string()),
        }]
    );
}

#[test]
fn listener_without_a_connection_stops_silently() {
    let listener: Listener = ServerListener::new(false, true, true);
    let (listener, actions) =
        listener.step(ListenerEvent::InitialConnection(Err("no layout".to_string())));
    assert_eq!(actions, vec![]);
    assert!(listener.is_finished());
}

#[test]
fn failures_before_attachment_are_shown_and_close_the_connection() {
    let start = || ListenerEvent::InitialConnection(Ok(Some(to(Some("work"), None))));
    let named = || ListenerEvent::NameChecked(Ok(()));
    for (events, text) in [
        (
            vec![
                ListenerEvent::InitialConnection(Ok(None)),
                ListenerEvent::NameGenerated(None),
            ],
            no_name_notice(),
        ),
        (
            vec![start(), ListenerEvent::NameChecked(Err("too long".to_string()))],
            bad_name_notice("work", "too long"),
        ),
        (
            vec![start(), named(), inspected("work", true, Some(false))],
            denied_notice(),
        ),
        (
            vec![start(), named(), inspected("work", true, None)],
            denied_notice(),
        ),
        (
            vec![
                start(),
                named(),
                inspected("work", false, Some(false)),
                ListenerEvent::SessionSpawned(Err("no pipe".to_string())),
            ],
            not_started_notice("work", "no pipe"),
        ),
    ] {
        let (listener, actions) = run(ServerListener::new(false, true, true), events);
        assert_eq!(
            actions,
            vec![ListenerAction::SendStdout(text), ListenerAction::CloseConnection]
        );
        assert!(listener.is_finished());
    }
}

#[test]
fn read_only_client_attaches_to_an_existing_session() {
    let (_, actions) = run(
        ServerListener::new(false, true, true),
        vec![
            ListenerEvent::InitialConnection(Ok(Some(to(Some("work"), Some("tall"))))),
            ListenerEvent::NameChecked(Ok(())),
            inspected("work", true, Some(true)),
        ],
    );
    assert_eq!(
        actions,
        vec![ListenerAction::SpawnSession {
            session_name: "work".to_string(),
            is_read_only: true,
            session_exists: true,
            should_create_new_session: false,
            initial_layout: Some("tall".to_string()),
        }]
    );
}

#[test]
fn browser_terminal_is_set_up_before_the_first_output() {
    let render = |text: &str| {
        received(ServerMessage::Render {
            content: text.to_string(),
        })
    };
    let (listener, actions) = attached(false, true).step(render("one"));
    assert_eq!(
        actions,
        vec![
            ListenerAction::SendTerminalInit,
            ListenerAction::SendStdout("one".to_string()),
        ]
    );
    let (_, actions) = listener.step(render("two"));
    assert_eq!(actions, vec![ListenerAction::SendStdout("two".to_string())]);

    let (_, actions) = attached(true, true).step(render("one"));
    assert_eq!(actions, vec![ListenerAction::SendStdout("one".to_string())]);
}

#[test]
fn switching_sessions_starts_over_without_a_second_attachment_signal() {
    let (listener, actions) = attached(false, true).step(received(ServerMessage::SwitchSession {
        connect_to_session: to(Some("play"), None),
    }));
    assert_eq!(actions, vec![ListenerAction::CheckName("play".to_string())]);
    let (listener, actions) = run(
        listener,
        vec![
            ListenerEvent::NameChecked(Ok(())),
            inspected("play", false, Some(true)),
            ListenerEvent::SessionSpawned(Ok(())),
        ],
    );
    assert_eq!(
        actions,
        vec![ListenerAction::SendHostQuerySeeds, switched("play")]
    );
    let (_, actions) = listener.step(received(ServerMessage::Render {
        content: "x".to_string(),
    }));
    assert_eq!(actions[0], ListenerAction::SendTerminalInit);
}

#[test]
fn exit_is_shown_then_closed_then_announced() {
    for (reason, again, close) in [
        (
            ExitReason::Normal,
            ExitReason::Normal,
            ListenerAction::CloseConnection,
        ),
        (
            ExitReason::KickedByHost,
            ExitReason::KickedByHost,
            ListenerAction::CloseConnectionKicked,
        ),
    ] {
        let (listener, actions) =
            attached(false, true).step(received(ServerMessage::Exit { exit_reason: reason }));
        assert_eq!(
            actions,
            vec![
                ListenerAction::SendStdout(handle_exit_reason(again).text),
                close,
                ListenerAction::SendClientExited,
            ]
        );
        assert!(listener.is_finished());
    }
}

#[test]
fn messages_for_the_client_go_to_its_control_channel() {
    let lines = || vec!["a".to_string(), "b".to_string()];
    for (message, notice) in [
        (ServerMessage::QueryTerminalSize, ControlNotice::QueryTerminalSize),
        (
            ServerMessage::Log { lines: lines() },
            ControlNotice::Log { lines: lines() },
        ),
        (
            ServerMessage::LogError { lines: lines() },
            ControlNotice::LogError { lines: lines() },
        ),
        (
            ServerMessage::RenamedSession {
                name: "rest".to_string(),
            },
            ControlNotice::SwitchedSession {
                new_session_name: "rest".to_string(),
            },
        ),
    ] {
        let (listener, actions) = attached(false, true).step(received(message));
        assert_eq!(actions, vec![ListenerAction::SendControl(notice)]);
        assert_eq!(listener, attached(false, true));
    }
}

#[test]
fn messages_of_no_concern_are_passed_over() {
    for message in [
        ServerMessage::UnblockInputThread,
        ServerMessage::Connected,
        ServerMessage::CliPipeOutput,
        ServerMessage::UnblockCliPipeInput,
        ServerMessage::StartWebServer,
        ServerMessage::PaneRenderUpdate,
        ServerMessage::SubscribedPaneClosed,
    ] {
        let (listener, actions) = attached(false, true).step(received(message));
        assert_eq!(actions, vec![]);
        assert_eq!(listener, attached(false, true));
    }
}

#[test]
fn forwarded_query_gets_an_empty_reply() {
    let (_, actions) =
        attached(false, true).step(received(ServerMessage::ForwardQueryToHost { token: 7 }));
    assert_eq!(
        actions,
        vec![ListenerAction::ReplyFromHost {
            token: 7,
            reply_bytes: vec![],
        }]
    );
}

#[test]
fn changed_configuration_is_sent_on_if_it_can_be_read() {
    let (listener, actions) =
        attached(false, true).step(received(ServerMessage::ConfigFileUpdated));
    assert_eq!(actions, vec![ListenerAction::ReloadConfig]);
    let (listener, actions) = listener.step(ListenerEvent::ConfigReloaded(true));
    assert_eq!(
        actions,
        vec![ListenerAction::SendReloadedSeeds, ListenerAction::BroadcastConfig]
    );
    let (listener, _) = listener.step(received(ServerMessage::ConfigFileUpdated));
    let (listener, actions) = listener.step(ListenerEvent::ConfigReloaded(false));
    assert_eq!(actions, vec![]);
    assert_eq!(listener, attached(false, true));

    let (_, actions) = attached(false, false).step(received(ServerMessage::ConfigFileUpdated));
    assert_eq!(actions, vec![]);
}

#[test]
fn thousandth_unreadable_message_in_a_row_ends_the_connection() {
    let mut listener = attached(false, true);
    for _ in 0..999 {
        let (next, actions) = listener.step(ListenerEvent::MessageReceived(None));
        assert_eq!(actions, vec![]);
        listener = next;
    }
    let (listener, actions) = listener.step(ListenerEvent::MessageReceived(None));
    assert_eq!(
        actions,
        vec![
            ListenerAction::SendStdout(flooded_notice()),
            ListenerAction::CloseConnection,
        ]
    );
    assert!(listener.is_finished());
}

#[test]
fn readable_message_starts_the_count_anew() {
    let mut listener = attached(false, true);
    for _ in 0..2 {
        for _ in 0..999 {
            listener = listener.step(ListenerEvent::MessageReceived(None)).0;
        }
        listener = listener.step(received(ServerMessage::Connected)).0;
        assert_eq!(listener, attached(false, true));
    }
}

#[test]
fn configuration_is_taken_over_only_if_it_was_read() {
    let mut config = "old";
    let mut options = 1;
    let failed: Result<(&str, i32), String> = Err("bad file".to_string());
    reload_config_from_disk(&mut config, &mut options, failed);
    assert_eq!((config, options), ("old", 1));
    let read: Result<(&str, i32), String> = Ok(("new", 2));
    reload_config_from_disk(&mut config, &mut options, read);
    assert_eq!((config, options), ("new", 2));
}

#[test]
fn configuration_goes_to_every_client() {
    let clients = || vec!["a".to_string(), "b".to_string()];
    assert_eq!(
        config_broadcast(clients(), Some("{}".to_string())),
        vec![
            ConfigDelivery {
                client_id: "a".to_string(),
                message: "{}".to_string(),
            },
            ConfigDelivery {
                client_id: "b".to_string(),
                message: "{}".to_string(),
            },
        ]
    );
    assert_eq!(config_broadcast(clients(), None), vec![]);
    assert_eq!(config_broadcast(vec![], Some("{}".to_string())), vec![]);
}

#[test]
fn listener_expects_only_what_it_waits_for() {
    let listener: Listener = ServerListener::new(false, true, true);
    assert!(listener.expects(&ListenerEvent::InitialConnection(Ok(None))));
    assert!(!listener.expects(&ListenerEvent::NameChecked(Ok(()))));
    let listener = attached(false, true);
    assert!(listener.expects(&ListenerEvent::MessageReceived(None)));
    assert!(!listener.expects(&ListenerEvent::ConfigReloaded(true)));
    let (listener, _) = listener.step(received(ServerMessage::ConfigFileUpdated));
    assert!(!listener.expects(&ListenerEvent::MessageReceived(None)));
    assert!(listener.expects(&ListenerEvent::ConfigReloaded(true)));
}
