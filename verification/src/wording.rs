//! The fixed wording of the notices that a client's terminal shows.
//!
//! A row holds its own trailing blanks, up to the right edge of the frame.

use vstd::prelude::*;

verus! {

/// Terminal color codes of the frames.
pub const RED: &'static str = "31";

pub const GREEN: &'static str = "32";

pub const YELLOW: &'static str = "33";

pub const BLUE: &'static str = "34";

/// Clears the screen and returns to the first column.
pub const CLEAR_SCREEN: &'static str = "\u{1b}[2J\n\r";

pub const BOLD_COLOR: &'static str = "\u{1b}[1;";

pub const TOP_EDGE: &'static str =
    "m╔════════════════════════════════════════════════════════════════╗\u{1b}[0m\n";

pub const MIDDLE_EDGE: &'static str =
    "m╠════════════════════════════════════════════════════════════════╣\u{1b}[0m\n";

pub const BOTTOM_EDGE: &'static str =
    "m╚════════════════════════════════════════════════════════════════╝\u{1b}[0m\n";

pub const LEFT_EDGE: &'static str = "m║\u{1b}[0m";

pub const RIGHT_EDGE: &'static str = "m║\u{1b}[0m\n";

pub const DENIED_TITLE: &'static str = "  \u{1b}[1mPermission Denied\u{1b}[0m                                              ";

pub const DENIED_ROW_1: &'static str = "  Read-only tokens cannot create new sessions.                  ";

pub const DENIED_ROW_2: &'static str = "  Please use a full access token or connect to an existing     ";

pub const DENIED_ROW_3: &'static str = "  session.                                                      ";

pub const FLOODED_TITLE: &'static str = "  \u{1b}[1mConnection Error\u{1b}[0m                                               ";

pub const FLOODED_ROW_1: &'static str = "  Received invalid data from server.                           ";

pub const FLOODED_ROW_2: &'static str = "  The connection has been closed to prevent system overload.   ";

pub const KICKED_TITLE: &'static str = "  \u{1b}[1mDisconnected\u{1b}[0m                                                   ";

pub const KICKED_ROW_1: &'static str = "  You were disconnected by another client (kicked by host).     ";

pub const KICKED_ROW_2: &'static str = "  Another user or process forced your disconnection.            ";

pub const FORBIDDEN_TITLE: &'static str = "  \u{1b}[1mAccess Denied\u{1b}[0m                                                  ";

pub const FORBIDDEN_ROW_1: &'static str = "  Web clients are not allowed to attach to this session.        ";

pub const FORBIDDEN_ROW_2: &'static str = "  The session owner has disabled web access.                    ";

pub const SERVER_ERROR_TITLE: &'static str = "  \u{1b}[1mServer Error\u{1b}[0m                                                   ";

pub const SERVER_ERROR_ROW_1: &'static str = "  The server encountered an error and closed the connection.    ";

pub const ENDED_TITLE: &'static str = "  \u{1b}[1mSession Ended\u{1b}[0m                                                  ";

pub const ENDED_ROW_1: &'static str = "  The session has ended.                                       ";

pub const ENDED_ROW_2: &'static str = "  All panes and processes have been closed.                    ";

pub const DETACHED_TITLE: &'static str = "  \u{1b}[1mSession Detached\u{1b}[0m                                               ";

pub const DETACHED_ROW_1: &'static str = "  You have been detached from the session.                     ";

pub const DETACHED_ROW_2: &'static str = "  The session is still running and can be reattached.          ";

pub const FORCED_TITLE: &'static str = "  \u{1b}[1mForce Disconnected\u{1b}[0m                                             ";

pub const FORCED_ROW_1: &'static str = "  Your session was detached by another client.                 ";

pub const FORCED_ROW_2: &'static str = "  This can happen when another client connects with --force.   ";

pub const CANNOT_ATTACH_TITLE: &'static str = "  \u{1b}[1mCannot Attach\u{1b}[0m                                                  ";

pub const CANNOT_ATTACH_ROW_1: &'static str = "  This session is attached to another client.                  ";

pub const CANNOT_ATTACH_ROW_2: &'static str = "  Use the --force flag to force connect.                       ";

pub const LOST_TITLE: &'static str = "  \u{1b}[1mConnection Lost\u{1b}[0m                                                ";

pub const LOST_ROW_1: &'static str = "  Your client lost connection to the server.                   ";

pub const LOST_ROW_2: &'static str = "  This usually happens when your terminal processes messages   ";

pub const LOST_ROW_3: &'static str = "  too slowly (high system load or slow network).               ";

pub const LOST_ROW_4: &'static str = "  Your session is still active. Try reconnecting.              ";

pub const NOT_STARTED_TITLE: &'static str = "  \u{1b}[1mFailed to Start Session\u{1b}[0m                                        ";

pub const NOT_STARTED_NAME_PREFIX: &'static str = "  Could not start session '";

pub const NOT_STARTED_NAME_SUFFIX: &'static str = "':                              ";

pub const NOT_STARTED_REASON_PREFIX: &'static str = "  ";

pub const NOT_STARTED_REASON_SUFFIX: &'static str =
    "                                                            ";

pub const NO_NAME: &'static str =
    "\u{1b}[2J\n\r\u{1b}[1;31mError: Failed to generate unique session name\u{1b}[0m\n";

pub const BAD_NAME_PREFIX: &'static str = "\u{1b}[2J\n\r\u{1b}[1;31mError: Invalid session name '";

pub const BAD_NAME_SUFFIX: &'static str = "'\u{1b}[0m\n\n";

pub const DISABLE_MOUSE: &'static str =
    "\u{1b}[?1006l\u{1b}[?1015l\u{1b}[?1003l\u{1b}[?1002l\u{1b}[?1000l";

pub const CLEAR_TERMINAL_ATTRIBUTES: &'static str =
    "\u{1b}[?1l\u{1b}=\u{1b}[r\u{1b}[?1000l\u{1b}[?1002l\u{1b}[?1003l\u{1b}[?1005l\u{1b}[?1006l\u{1b}[?12l";

/// Goes to the first column of a new line, then to the top left corner.
pub const GO_TO_START: &'static str = "\n\r\u{1b}[1;1H\n";

pub const ERROR_DETAILS: &'static str = "\nError details:\n";

pub const LINE_BREAK: &'static str = "\n\r";

pub const EXIT_STATUS_PREFIX: &'static str = "\u{1b}[2J\n\r\u{1b}[1mSession ended with exit code: ";

pub const EXIT_STATUS_SUFFIX: &'static str = "\u{1b}[0m\n";

} // verus!
