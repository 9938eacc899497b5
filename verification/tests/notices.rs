use zellij_web_client::notices::{
    bad_name_notice, denied_notice, flooded_notice, handle_exit_reason, no_name_notice,
    not_started_notice, ExitReason,
};

#[test]
fn notice_of_kicked_client() {
    let notice = handle_exit_reason(ExitReason::KickedByHost);
    assert_eq!(
        notice.text,
        "\u{1b}[2J\n\r\u{1b}[1;31m╔════════════════════════════════════════════════════════════════╗\u{1b}[0m\n\
         \u{1b}[1;31m║\u{1b}[0m  \u{1b}[1mDisconnected\u{1b}[0m                                                   \u{1b}[1;31m║\u{1b}[0m\n\
         \u{1b}[1;31m╠════════════════════════════════════════════════════════════════╣\u{1b}[0m\n\
         \u{1b}[1;31m║\u{1b}[0m  You were disconnected by another client (kicked by host).     \u{1b}[1;31m║\u{1b}[0m\n\
         \u{1b}[1;31m║\u{1b}[0m  Another user or process forced your disconnection.            \u{1b}[1;31m║\u{1b}[0m\n\
         \u{1b}[1;31m╚════════════════════════════════════════════════════════════════╝\u{1b}[0m\n"
    );
    assert!(notice.kicked);
}

#[test]
fn notice_of_forbidden_client() {
    let notice = handle_exit_reason(ExitReason::WebClientsForbidden);
    assert_eq!(
        notice.text,
        "\u{1b}[2J\n\r\u{1b}[1;33m╔════════════════════════════════════════════════════════════════╗\u{1b}[0m\n\
         \u{1b}[1;33m║\u{1b}[0m  \u{1b}[1mAccess Denied\u{1b}[0m                                                  \u{1b}[1;33m║\u{1b}[0m\n\
         \u{1b}[1;33m╠════════════════════════════════════════════════════════════════╣\u{1b}[0m\n\
         \u{1b}[1;33m║\u{1b}[0m  Web clients are not allowed to attach to this session.        \u{1b}[1;33m║\u{1b}[0m\n\
         \u{1b}[1;33m║\u{1b}[0m  The session owner has disabled web access.                    \u{1b}[1;33m║\u{1b}[0m\n\
         \u{1b}[1;33m╚════════════════════════════════════════════════════════════════╝\u{1b}[0m\n"
    );
    assert!(!notice.kicked);
}

#[test]
fn notice_of_ended_session() {
    let notice = handle_exit_reason(ExitReason::Normal);
    assert_eq!(
        notice.text,
        "\u{1b}[2J\n\r\u{1b}[1;32m╔════════════════════════════════════════════════════════════════╗\u{1b}[0m\n\
         \u{1b}[1;32m║\u{1b}[0m  \u{1b}[1mSession Ended\u{1b}[0m                                                  \u{1b}[1;32m║\u{1b}[0m\n\
         \u{1b}[1;32m╠════════════════════════════════════════════════════════════════╣\u{1b}[0m\n\
         \u{1b}[1;32m║\u{1b}[0m  The session has ended.                                       \u{1b}[1;32m║\u{1b}[0m\n\
         \u{1b}[1;32m║\u{1b}[0m  All panes and processes have been closed.                    \u{1b}[1;32m║\u{1b}[0m\n\
         \u{1b}[1;32m╚════════════════════════════════════════════════════════════════╝\u{1b}[0m\n"
    );
    assert!(!notice.kicked);
}

#[test]
fn notice_of_detached_session() {
    let notice = handle_exit_reason(ExitReason::NormalDetached);
    assert_eq!(
        notice.text,
        "\u{1b}[2J\n\r\u{1b}[1;34m╔════════════════════════════════════════════════════════════════╗\u{1b}[0m\n\
         \u{1b}[1;34m║\u{1b}[0m  \u{1b}[1mSession Detached\u{1b}[0m                                               \u{1b}[1;34m║\u{1b}[0m\n\
         \u{1b}[1;34m╠════════════════════════════════════════════════════════════════╣\u{1b}[0m\n\
         \u{1b}[1;34m║\u{1b}[0m  You have been detached from the session.                     \u{1b}[1;34m║\u{1b}[0m\n\
         \u{1b}[1;34m║\u{1b}[0m  The session is still running and can be reattached.          \u{1b}[1;34m║\u{1b}[0m\n\
         \u{1b}[1;34m╚════════════════════════════════════════════════════════════════╝\u{1b}[0m\n"
    );
    assert!(!notice.kicked);
}

#[test]
fn notice_of_forced_detachment() {
    let notice = handle_exit_reason(ExitReason::ForceDetached);
    assert_eq!(
        notice.text,
        "\u{1b}[2J\n\r\u{1b}[1;33m╔════════════════════════════════════════════════════════════════╗\u{1b}[0m\n\
         \u{1b}[1;33m║\u{1b}[0m  \u{1b}[1mForce Disconnected\u{1b}[0m                                             \u{1b}[1;33m║\u{1b}[0m\n\
         \u{1b}[1;33m╠════════════════════════════════════════════════════════════════╣\u{1b}[0m\n\
         \u{1b}[1;33m║\u{1b}[0m  Your session was detached by another client.                 \u{1b}[1;33m║\u{1b}[0m\n\
         \u{1b}[1;33m║\u{1b}[0m  This can happen when another client connects with --force.   \u{1b}[1;33m║\u{1b}[0m\n\
         \u{1b}[1;33m╚════════════════════════════════════════════════════════════════╝\u{1b}[0m\n"
    );
    assert!(!notice.kicked);
}

#[test]
fn notice_of_occupied_session() {
    let notice = handle_exit_reason(ExitReason::CannotAttach);
    assert_eq!(
        notice.text,
        "\u{1b}[2J\n\r\u{1b}[1;33m╔════════════════════════════════════════════════════════════════╗\u{1b}[0m\n\
         \u{1b}[1;33m║\u{1b}[0m  \u{1b}[1mCannot Attach\u{1b}[0m                                                  \u{1b}[1;33m║\u{1b}[0m\n\
         \u{1b}[1;33m╠════════════════════════════════════════════════════════════════╣\u{1b}[0m\n\
         \u{1b}[1;33m║\u{1b}[0m  This session is attached to another client.                  \u{1b}[1;33m║\u{1b}[0m\n\
         \u{1b}[1;33m║\u{1b}[0m  Use the --force flag to force connect.                       \u{1b}[1;33m║\u{1b}[0m\n\
         \u{1b}[1;33m╚════════════════════════════════════════════════════════════════╝\u{1b}[0m\n"
    );
    assert!(!notice.kicked);
}

#[test]
fn notice_of_lost_connection() {
    let notice = handle_exit_reason(ExitReason::Disconnect);
    assert_eq!(
        notice.text,
        "\u{1b}[2J\n\r\u{1b}[1;31m╔════════════════════════════════════════════════════════════════╗\u{1b}[0m\n\
         \u{1b}[1;31m║\u{1b}[0m  \u{1b}[1mConnection Lost\u{1b}[0m                                                \u{1b}[1;31m║\u{1b}[0m\n\
         \u{1b}[1;31m╠════════════════════════════════════════════════════════════════╣\u{1b}[0m\n\
         \u{1b}[1;31m║\u{1b}[0m  Your client lost connection to the server.                   \u{1b}[1;31m║\u{1b}[0m\n\
         \u{1b}[1;31m║\u{1b}[0m  This usually happens when your terminal processes messages   \u{1b}[1;31m║\u{1b}[0m\n\
         \u{1b}[1;31m║\u{1b}[0m  too slowly (high system load or slow network).               \u{1b}[1;31m║\u{1b}[0m\n\
         \u{1b}[1;31m║\u{1b}[0m  Your session is still active. Try reconnecting.              \u{1b}[1;31m║\u{1b}[0m\n\
         \u{1b}[1;31m╚════════════════════════════════════════════════════════════════╝\u{1b}[0m\n"
    );
    assert!(!notice.kicked);
}

#[test]
fn notice_of_server_error_starts_each_line_at_the_margin() {
    let notice = handle_exit_reason(ExitReason::Error("first\nsecond\n\nlast".to_string()));
    let reset = "\u{1b}[?1006l\u{1b}[?1015l\u{1b}[?1003l\u{1b}[?1002l\u{1b}[?1000l\
         \u{1b}[?1l\u{1b}=\u{1b}[r\u{1b}[?1000l\u{1b}[?1002l\u{1b}[?1003l\u{1b}[?1005l\u{1b}[?1006l\u{1b}[?12l\
         \n\r\u{1b}[1;1H\n";
    let message = format!(
        "\u{1b}[2J\n\r\u{1b}[1;31m╔════════════════════════════════════════════════════════════════╗\u{1b}[0m\n\
         \u{1b}[1;31m║\u{1b}[0m  \u{1b}[1mServer Error\u{1b}[0m                                                   \u{1b}[1;31m║\u{1b}[0m\n\
         \u{1b}[1;31m╠════════════════════════════════════════════════════════════════╣\u{1b}[0m\n\
         \u{1b}[1;31m║\u{1b}[0m  The server encountered an error and closed the connection.    \u{1b}[1;31m║\u{1b}[0m\n\
         \u{1b}[1;31m╚════════════════════════════════════════════════════════════════╝\u{1b}[0m\n\n\
         Error details:\n{}",
        "first\n\rsecond\n\r\n\rlast"
    );
    assert_eq!(notice.text, format!("{}{}", reset, message));
    assert!(!notice.kicked);
}

#[test]
fn notice_of_exit_status_shows_any_code() {
    for (code, shown) in [
        (0, "0"),
        (7, "7"),
        (10, "10"),
        (130, "130"),
        (-1, "-1"),
        (i32::MAX, "2147483647"),
        (i32::MIN, "-2147483648"),
    ] {
        let notice = handle_exit_reason(ExitReason::CustomExitStatus(code));
        assert_eq!(
            notice.text,
            format!(
                "\u{1b}[2J\n\r\u{1b}[1mSession ended with exit code: {}\u{1b}[0m\n",
                shown
            )
        );
        assert!(!notice.kicked);
    }
}

#[test]
fn notice_of_missing_name() {
    assert_eq!(
        no_name_notice(),
        "\u{1b}[2J\n\r\u{1b}[1;31mError: Failed to generate unique session name\u{1b}[0m\n"
    );
}

#[test]
fn notice_of_bad_name_holds_name_and_error() {
    assert_eq!(
        bad_name_notice("a/b", "no slashes"),
        "\u{1b}[2J\n\r\u{1b}[1;31mError: Invalid session name 'a/b'\u{1b}[0m\n\nno slashes"
    );
}

#[test]
fn notice_of_denied_creation() {
    assert_eq!(
        denied_notice(),
        "\u{1b}[2J\n\r\u{1b}[1;33m╔════════════════════════════════════════════════════════════════╗\u{1b}[0m\n\
         \u{1b}[1;33m║\u{1b}[0m  \u{1b}[1mPermission Denied\u{1b}[0m                                              \u{1b}[1;33m║\u{1b}[0m\n\
         \u{1b}[1;33m╠════════════════════════════════════════════════════════════════╣\u{1b}[0m\n\
         \u{1b}[1;33m║\u{1b}[0m  Read-only tokens cannot create new sessions.                  \u{1b}[1;33m║\u{1b}[0m\n\
         \u{1b}[1;33m║\u{1b}[0m  Please use a full access token or connect to an existing     \u{1b}[1;33m║\u{1b}[0m\n\
         \u{1b}[1;33m║\u{1b}[0m  session.                                                      \u{1b}[1;33m║\u{1b}[0m\n\
         \u{1b}[1;33m╚════════════════════════════════════════════════════════════════╝\u{1b}[0m\n"
    );
}

#[test]
fn notice_of_failed_start_holds_name_and_error() {
    assert_eq!(
        not_started_notice("work", "out of pipes"),
        format!(
            "\u{1b}[2J\n\r\u{1b}[1;31m╔════════════════════════════════════════════════════════════════╗\u{1b}[0m\n\
             \u{1b}[1;31m║\u{1b}[0m  \u{1b}[1mFailed to Start Session\u{1b}[0m                                        \u{1b}[1;31m║\u{1b}[0m\n\
             \u{1b}[1;31m╠════════════════════════════════════════════════════════════════╣\u{1b}[0m\n\
             \u{1b}[1;31m║\u{1b}[0m  Could not start session '{}':                              \u{1b}[1;31m║\u{1b}[0m\n\
             \u{1b}[1;31m║\u{1b}[0m  {}                                                            \u{1b}[1;31m║\u{1b}[0m\n\
             \u{1b}[1;31m╚════════════════════════════════════════════════════════════════╝\u{1b}[0m\n",
            "work", "out of pipes"
        )
    );
}

#[test]
fn notice_of_unreadable_messages() {
    assert_eq!(
        flooded_notice(),
        "\u{1b}[2J\n\r\u{1b}[1;31m╔════════════════════════════════════════════════════════════════╗\u{1b}[0m\n\
         \u{1b}[1;31m║\u{1b}[0m  \u{1b}[1mConnection Error\u{1b}[0m                                               \u{1b}[1;31m║\u{1b}[0m\n\
         \u{1b}[1;31m╠════════════════════════════════════════════════════════════════╣\u{1b}[0m\n\
         \u{1b}[1;31m║\u{1b}[0m  Received invalid data from server.                           \u{1b}[1;31m║\u{1b}[0m\n\
         \u{1b}[1;31m║\u{1b}[0m  The connection has been closed to prevent system overload.   \u{1b}[1;31m║\u{1b}[0m\n\
         \u{1b}[1;31m╚════════════════════════════════════════════════════════════════╝\u{1b}[0m\n"
    );
}
