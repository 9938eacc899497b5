use zellij_web_client::listener::machine::ServerListener;
use zellij_web_client::listener::messages::{ConnectToSession, ListenerEvent};
use zellij_web_client::socket::{is_plain_name, socket_session_name};

#[test]
fn plain_session_goes_by_its_own_name() {
    for dir in ["/run/user/1000/zellij", "/run/", "sockets", "", "/"] {
        for name in ["work", "a.b", "..a", "...", "x y", "é"] {
            assert!(is_plain_name(name));
            assert_eq!(socket_session_name(dir, name), Some(name.to_string()));
        }
    }
}

#[test]
fn session_goes_by_the_last_component_of_its_path() {
    assert_eq!(socket_session_name("/run", "a/b"), Some("b".to_string()));
    assert_eq!(socket_session_name("/run", ".."), None);
}

#[test]
fn separators_and_dots_are_not_plain_names() {
    for name in ["", ".", "..", "a/b", "/", "a\\b", "c:", "a/"] {
        assert!(!is_plain_name(name));
    }
}

#[test]
fn listener_expects_a_plain_session_under_the_name_that_was_checked() {
    let inspecting = |name: &str| {
        let listener: ServerListener<String> = ServerListener::new(false, true, true);
        let (listener, _) = listener.step(ListenerEvent::InitialConnection(Ok(Some(
            ConnectToSession {
                name: Some(name.to_string()),
                layout: None,
            },
        ))));
        listener.step(ListenerEvent::NameChecked(Ok(()))).0
    };
    let inspected = |name: &str| ListenerEvent::SessionInspected {
        session_name: name.to_string(),
        is_read_only: false,
        session_exists: Some(true),
    };
    assert!(inspecting("work").expects(&inspected("work")));
    assert!(!inspecting("work").expects(&inspected("play")));
    assert!(inspecting("a/b").expects(&inspected("b")));
}
