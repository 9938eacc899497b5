//! What a client's terminal shows when its session cannot start or has ended.

use vstd::prelude::*;

use crate::text::{push_decimal, replace_char};
use crate::wording::{
    BAD_NAME_PREFIX, BAD_NAME_SUFFIX, BLUE, BOLD_COLOR, BOTTOM_EDGE, CANNOT_ATTACH_ROW_1,
    CANNOT_ATTACH_ROW_2, CANNOT_ATTACH_TITLE, CLEAR_SCREEN, CLEAR_TERMINAL_ATTRIBUTES,
    DENIED_ROW_1, DENIED_ROW_2, DENIED_ROW_3, DENIED_TITLE, DETACHED_ROW_1, DETACHED_ROW_2,
    DETACHED_TITLE, DISABLE_MOUSE, ENDED_ROW_1, ENDED_ROW_2, ENDED_TITLE, ERROR_DETAILS,
    EXIT_STATUS_PREFIX, EXIT_STATUS_SUFFIX, FLOODED_ROW_1, FLOODED_ROW_2, FLOODED_TITLE,
    FORBIDDEN_ROW_1, FORBIDDEN_ROW_2, FORBIDDEN_TITLE, FORCED_ROW_1, FORCED_ROW_2, FORCED_TITLE,
    GO_TO_START, GREEN, KICKED_ROW_1, KICKED_ROW_2, KICKED_TITLE, LEFT_EDGE, LINE_BREAK,
    LOST_ROW_1, LOST_ROW_2, LOST_ROW_3, LOST_ROW_4, LOST_TITLE, MIDDLE_EDGE,
    NOT_STARTED_NAME_PREFIX, NOT_STARTED_NAME_SUFFIX, NOT_STARTED_REASON_PREFIX,
    NOT_STARTED_REASON_SUFFIX, NOT_STARTED_TITLE, NO_NAME, RED, RIGHT_EDGE, SERVER_ERROR_ROW_1,
    SERVER_ERROR_TITLE, TOP_EDGE, YELLOW,
};

verus! {

/// Why the server ended a client's session.
#[derive(Debug, PartialEq, Eq)]
pub enum ExitReason {
    Normal,
    NormalDetached,
    ForceDetached,
    CannotAttach,
    Disconnect,
    WebClientsForbidden,
    KickedByHost,
    CustomExitStatus(i32),
    Error(String),
}

/// The mathematical counterpart of [`ExitReason`].
pub enum ExitReasonView {
    Normal,
    NormalDetached,
    ForceDetached,
    CannotAttach,
    Disconnect,
    WebClientsForbidden,
    KickedByHost,
    CustomExitStatus(int),
    Error(Seq<char>),
}

impl View for ExitReason {
    type V = ExitReasonView;

    open spec fn view(&self) -> ExitReasonView {
        match *self {
            ExitReason::Normal => ExitReasonView::Normal,
            ExitReason::NormalDetached => ExitReasonView::NormalDetached,
            ExitReason::ForceDetached => ExitReasonView::ForceDetached,
            ExitReason::CannotAttach => ExitReasonView::CannotAttach,
            ExitReason::Disconnect => ExitReasonView::Disconnect,
            ExitReason::WebClientsForbidden => ExitReasonView::WebClientsForbidden,
            ExitReason::KickedByHost => ExitReasonView::KickedByHost,
            ExitReason::CustomExitStatus(code) => ExitReasonView::CustomExitStatus(code as int),
            ExitReason::Error(message) => ExitReasonView::Error(message@),
        }
    }
}

/// What ends a client's connection: the text to show last, and how to close.
#[derive(Debug, PartialEq, Eq)]
pub struct ExitNotice {
    pub text: String,
    /// The client was kicked out, and is not to reconnect by itself.
    pub kicked: bool,
}

/// One framed row.
pub open spec fn row(color: Seq<char>, content: Seq<char>) -> Seq<char> {
    BOLD_COLOR@ + color + LEFT_EDGE@ + content + BOLD_COLOR@ + color + RIGHT_EDGE@
}

/// The top of a frame, from a cleared screen down to the line under the title.
pub open spec fn head(color: Seq<char>, title: Seq<char>) -> Seq<char> {
    CLEAR_SCREEN@ + BOLD_COLOR@ + color + TOP_EDGE@ + row(color, title) + BOLD_COLOR@ + color
        + MIDDLE_EDGE@
}

/// The bottom of a frame.
pub open spec fn foot(color: Seq<char>) -> Seq<char> {
    BOLD_COLOR@ + color + BOTTOM_EDGE@
}

/// A frame around two rows.
pub open spec fn frame(
    color: Seq<char>,
    title: Seq<char>,
    first: Seq<char>,
    second: Seq<char>,
) -> Seq<char> {
    head(color, title) + row(color, first) + row(color, second) + foot(color)
}

/// The text shown for each exit reason.
pub open spec fn exit_text(reason: ExitReasonView) -> Seq<char> {
    match reason {
        ExitReasonView::Normal => frame(GREEN@, ENDED_TITLE@, ENDED_ROW_1@, ENDED_ROW_2@),
        ExitReasonView::NormalDetached => frame(
            BLUE@,
            DETACHED_TITLE@,
            DETACHED_ROW_1@,
            DETACHED_ROW_2@,
        ),
        ExitReasonView::ForceDetached => frame(
            YELLOW@,
            FORCED_TITLE@,
            FORCED_ROW_1@,
            FORCED_ROW_2@,
        ),
        ExitReasonView::CannotAttach => frame(
            YELLOW@,
            CANNOT_ATTACH_TITLE@,
            CANNOT_ATTACH_ROW_1@,
            CANNOT_ATTACH_ROW_2@,
        ),
        ExitReasonView::Disconnect => head(RED@, LOST_TITLE@) + row(RED@, LOST_ROW_1@) + row(
            RED@,
            LOST_ROW_2@,
        ) + row(RED@, LOST_ROW_3@) + row(RED@, LOST_ROW_4@) + foot(RED@),
        ExitReasonView::WebClientsForbidden => frame(
            YELLOW@,
            FORBIDDEN_TITLE@,
            FORBIDDEN_ROW_1@,
            FORBIDDEN_ROW_2@,
        ),
        ExitReasonView::KickedByHost => frame(RED@, KICKED_TITLE@, KICKED_ROW_1@, KICKED_ROW_2@),
        ExitReasonView::CustomExitStatus(code) => EXIT_STATUS_PREFIX@ + crate::text::decimal(code)
            + EXIT_STATUS_SUFFIX@,
        ExitReasonView::Error(message) => DISABLE_MOUSE@ + CLEAR_TERMINAL_ATTRIBUTES@ + GO_TO_START@
            + head(RED@, SERVER_ERROR_TITLE@) + row(RED@, SERVER_ERROR_ROW_1@) + foot(RED@)
            + ERROR_DETAILS@ + crate::text::replace_each(message, '\n', LINE_BREAK@),
    }
}

/// Shown when a session name could not be made up.
pub open spec fn no_name_text() -> Seq<char> {
    NO_NAME@
}

/// Shown when a session name is not acceptable.
pub open spec fn bad_name_text(name: Seq<char>, error: Seq<char>) -> Seq<char> {
    BAD_NAME_PREFIX@ + name + BAD_NAME_SUFFIX@ + error
}

/// Shown when a read-only client asks for a session that does not exist.
pub open spec fn denied_text() -> Seq<char> {
    head(YELLOW@, DENIED_TITLE@) + row(YELLOW@, DENIED_ROW_1@) + row(YELLOW@, DENIED_ROW_2@) + row(
        YELLOW@,
        DENIED_ROW_3@,
    ) + foot(YELLOW@)
}

/// Shown when a session could not be started.
pub open spec fn not_started_text(name: Seq<char>, error: Seq<char>) -> Seq<char> {
    frame(
        RED@,
        NOT_STARTED_TITLE@,
        NOT_STARTED_NAME_PREFIX@ + name + NOT_STARTED_NAME_SUFFIX@,
        NOT_STARTED_REASON_PREFIX@ + error + NOT_STARTED_REASON_SUFFIX@,
    )
}

/// Shown when the server sends nothing but messages that cannot be read.
pub open spec fn flooded_text() -> Seq<char> {
    frame(RED@, FLOODED_TITLE@, FLOODED_ROW_1@, FLOODED_ROW_2@)
}

fn push_row(out: &mut String, color: &str, content: &str)
    ensures
        final(out)@ == old(out)@ + row(color@, content@),
{
    out.append(BOLD_COLOR);
    out.append(color);
    out.append(LEFT_EDGE);
    out.append(content);
    out.append(BOLD_COLOR);
    out.append(color);
    out.append(RIGHT_EDGE);
}

fn start_frame(color: &str, title: &str) -> (out: String)
    ensures
        out@ == head(color@, title@),
{
    let mut out = String::new();
    out.append(CLEAR_SCREEN);
    out.append(BOLD_COLOR);
    out.append(color);
    out.append(TOP_EDGE);
    push_row(&mut out, color, title);
    out.append(BOLD_COLOR);
    out.append(color);
    out.append(MIDDLE_EDGE);
    out
}

fn push_foot(out: &mut String, color: &str)
    ensures
        final(out)@ == old(out)@ + foot(color@),
{
    out.append(BOLD_COLOR);
    out.append(color);
    out.append(BOTTOM_EDGE);
}

fn framed(color: &str, title: &str, first: &str, second: &str) -> (out: String)
    ensures
        out@ == frame(color@, title@, first@, second@),
{
    let mut out = start_frame(color, title);
    push_row(&mut out, color, first);
    push_row(&mut out, color, second);
    push_foot(&mut out, color);
    out
}

fn connection_lost() -> (out: String)
    ensures
        out@ == exit_text(ExitReasonView::Disconnect),
{
    let mut out = start_frame(RED, LOST_TITLE);
    push_row(&mut out, RED, LOST_ROW_1);
    push_row(&mut out, RED, LOST_ROW_2);
    push_row(&mut out, RED, LOST_ROW_3);
    push_row(&mut out, RED, LOST_ROW_4);
    push_foot(&mut out, RED);
    out
}

fn server_error(message: &str) -> (out: String)
    ensures
        out@ == exit_text(ExitReasonView::Error(message@)),
{
    let mut out = String::new();
    out.append(DISABLE_MOUSE);
    out.append(CLEAR_TERMINAL_ATTRIBUTES);
    out.append(GO_TO_START);
    let opening = start_frame(RED, SERVER_ERROR_TITLE);
    out.append(opening.as_str());
    push_row(&mut out, RED, SERVER_ERROR_ROW_1);
    push_foot(&mut out, RED);
    out.append(ERROR_DETAILS);
    let details = replace_char(message, '\n', LINE_BREAK);
    out.append(details.as_str());
    out
}

fn custom_exit(code: i32) -> (out: String)
    ensures
        out@ == exit_text(ExitReasonView::CustomExitStatus(code as int)),
{
    let mut out = String::new();
    out.append(EXIT_STATUS_PREFIX);
    push_decimal(&mut out, code);
    out.append(EXIT_STATUS_SUFFIX);
    out
}

/// The last thing a client sees of a session that ended for `exit_reason`, and
/// whether its connection is closed as a kicked one.
pub fn handle_exit_reason(exit_reason: ExitReason) -> (notice: ExitNotice)
    ensures
        notice.text@ == exit_text(exit_reason@),
        notice.kicked == (exit_reason is KickedByHost),
{
    match exit_reason {
        ExitReason::KickedByHost => ExitNotice {
            text: framed(RED, KICKED_TITLE, KICKED_ROW_1, KICKED_ROW_2),
            kicked: true,
        },
        ExitReason::WebClientsForbidden => ExitNotice {
            text: framed(YELLOW, FORBIDDEN_TITLE, FORBIDDEN_ROW_1, FORBIDDEN_ROW_2),
            kicked: false,
        },
        ExitReason::Error(message) => ExitNotice {
            text: server_error(message.as_str()),
            kicked: false,
        },
        ExitReason::Normal => ExitNotice {
            text: framed(GREEN, ENDED_TITLE, ENDED_ROW_1, ENDED_ROW_2),
            kicked: false,
        },
        ExitReason::NormalDetached => ExitNotice {
            text: framed(BLUE, DETACHED_TITLE, DETACHED_ROW_1, DETACHED_ROW_2),
            kicked: false,
        },
        ExitReason::ForceDetached => ExitNotice {
            text: framed(YELLOW, FORCED_TITLE, FORCED_ROW_1, FORCED_ROW_2),
            kicked: false,
        },
        ExitReason::CannotAttach => ExitNotice {
            text: framed(
                YELLOW,
                CANNOT_ATTACH_TITLE,
                CANNOT_ATTACH_ROW_1,
                CANNOT_ATTACH_ROW_2,
            ),
            kicked: false,
        },
        ExitReason::Disconnect => ExitNotice { text: connection_lost(), kicked: false },
        ExitReason::CustomExitStatus(code) => ExitNotice { text: custom_exit(code), kicked: false },
    }
}

/// The notice that no session name could be made up.
pub fn no_name_notice() -> (out: String)
    ensures
        out@ == no_name_text(),
{
    NO_NAME.to_owned()
}

/// The notice that `name` is no session name, with the `error` found in it.
pub fn bad_name_notice(name: &str, error: &str) -> (out: String)
    ensures
        out@ == bad_name_text(name@, error@),
{
    let mut out = String::new();
    out.append(BAD_NAME_PREFIX);
    out.append(name);
    out.append(BAD_NAME_SUFFIX);
    out.append(error);
    out
}

/// The notice that a read-only client cannot create a session.
pub fn denied_notice() -> (out: String)
    ensures
        out@ == denied_text(),
{
    let mut out = start_frame(YELLOW, DENIED_TITLE);
    push_row(&mut out, YELLOW, DENIED_ROW_1);
    push_row(&mut out, YELLOW, DENIED_ROW_2);
    push_row(&mut out, YELLOW, DENIED_ROW_3);
    push_foot(&mut out, YELLOW);
    out
}

/// The notice that session `name` could not be started because of `error`.
pub fn not_started_notice(name: &str, error: &str) -> (out: String)
    ensures
        out@ == not_started_text(name@, error@),
{
    let mut first = String::new();
    first.append(NOT_STARTED_NAME_PREFIX);
    first.append(name);
    first.append(NOT_STARTED_NAME_SUFFIX);
    let mut second = String::new();
    second.append(NOT_STARTED_REASON_PREFIX);
    second.append(error);
    second.append(NOT_STARTED_REASON_SUFFIX);
    framed(RED, NOT_STARTED_TITLE, first.as_str(), second.as_str())
}

/// The notice that the server's messages cannot be read.
pub fn flooded_notice() -> (out: String)
    ensures
        out@ == flooded_text(),
{
    framed(RED, FLOODED_TITLE, FLOODED_ROW_1, FLOODED_ROW_2)
}

/// A notice that no name and no error changes but where it quotes them.
pub open spec fn bad_name_quotes(before: Seq<char>, between: Seq<char>) -> bool {
    forall|name: Seq<char>, error: Seq<char>| #[trigger]
        bad_name_text(name, error) == before + name + between + error
}

/// A notice that no name and no error changes but where it quotes them.
pub open spec fn not_started_quotes(
    before: Seq<char>,
    between: Seq<char>,
    after: Seq<char>,
) -> bool {
    forall|name: Seq<char>, error: Seq<char>| #[trigger]
        not_started_text(name, error) == before + name + between + error + after
}

/// A notice that no exit status changes but where it shows it.
pub open spec fn exit_status_shown(before: Seq<char>, after: Seq<char>) -> bool {
    forall|code: int| #[trigger]
        exit_text(ExitReasonView::CustomExitStatus(code)) == before + crate::text::decimal(code)
            + after
}

/// The notices of sessions that cannot be had quote the name and the error in
/// full, at one place each, and are the same for all names and errors otherwise.
/// The notice of an exit status does so with the status in decimal notation.
pub proof fn law_notices_quote_in_full()
    ensures
        exists|before: Seq<char>, between: Seq<char>| bad_name_quotes(before, between),
        exists|before: Seq<char>, between: Seq<char>, after: Seq<char>|
            not_started_quotes(before, between, after),
        exists|before: Seq<char>, after: Seq<char>| exit_status_shown(before, after),
{
    assert(bad_name_quotes(BAD_NAME_PREFIX@, BAD_NAME_SUFFIX@));
    assert(exit_status_shown(EXIT_STATUS_PREFIX@, EXIT_STATUS_SUFFIX@));
    let before = head(RED@, NOT_STARTED_TITLE@) + BOLD_COLOR@ + RED@ + LEFT_EDGE@
        + NOT_STARTED_NAME_PREFIX@;
    let between = NOT_STARTED_NAME_SUFFIX@ + BOLD_COLOR@ + RED@ + RIGHT_EDGE@ + BOLD_COLOR@ + RED@
        + LEFT_EDGE@ + NOT_STARTED_REASON_PREFIX@;
    let after = NOT_STARTED_REASON_SUFFIX@ + BOLD_COLOR@ + RED@ + RIGHT_EDGE@ + foot(RED@);
    assert forall|name: Seq<char>, error: Seq<char>| #[trigger]
        not_started_text(name, error) == before + name + between + error + after by {
        assert(not_started_text(name, error) =~= before + name + between + error + after);
    }
    assert(not_started_quotes(before, between, after));
}

/// The notice of a server error ends with the error, every line of it brought back
/// to the margin. What comes before is the same for all errors.
pub proof fn law_server_error_is_shown_in_full(message: Seq<char>)
    ensures
        exit_text(ExitReasonView::Error(message)) == exit_text(ExitReasonView::Error(seq![]))
            + crate::text::replace_each(message, '\n', "\n\r"@),
{
    assert(crate::text::replace_each(seq![], '\n', "\n\r"@) =~= seq![]);
}

/// The view of an exit reason holds all of it.
pub proof fn law_exit_reason_view_holds_everything(reason: ExitReason)
    ensures
        match reason {
            ExitReason::Normal => reason@ is Normal,
            ExitReason::NormalDetached => reason@ is NormalDetached,
            ExitReason::ForceDetached => reason@ is ForceDetached,
            ExitReason::CannotAttach => reason@ is CannotAttach,
            ExitReason::Disconnect => reason@ is Disconnect,
            ExitReason::WebClientsForbidden => reason@ is WebClientsForbidden,
            ExitReason::KickedByHost => reason@ is KickedByHost,
            ExitReason::CustomExitStatus(code) => reason@ == ExitReasonView::CustomExitStatus(
                code as int,
            ),
            ExitReason::Error(message) => reason@ == ExitReasonView::Error(message@),
        },
{
}

/// Only a client that was kicked out is closed as a kicked one, and each is shown
/// the text of its own reason.
pub proof fn law_only_kicked_clients_are_closed_as_kicked(reason: ExitReason, notice: ExitNotice)
    requires
        call_ensures(handle_exit_reason, (reason,), notice),
    ensures
        notice.kicked <==> reason is KickedByHost,
        notice.text@ == exit_text(reason@),
{
}

} // verus!
