//! What the app-server sends of its own accord, and what is shown of it.
use vstd::prelude::*;
use vstd::string::*;

use crate::json::{Json, JsonView};
use crate::text::{
    decimal, head, opt_text, push_decimal, push_head, push_signed, same_text, signed_decimal,
};

verus! {

/// A notification of the app-server.
pub enum Notice {
    /// A piece of the agent's message, under either of two names.
    AgentMessageDelta { delta: Option<String>, text: Option<String> },
    TurnStarted { id: String },
    TurnCompleted { status: Option<String> },
    ItemCompleted { item: Json },
    /// A notification that has no type of its own.
    Unknown { method: String, params: Json },
    Other,
}

/// What a `Notice` says.
pub enum NoticeView {
    AgentMessageDelta { delta: Option<Seq<char>>, text: Option<Seq<char>> },
    TurnStarted { id: Seq<char> },
    TurnCompleted { status: Option<Seq<char>> },
    ItemCompleted { item: JsonView },
    Unknown { method: Seq<char>, params: JsonView },
    Other,
}

impl View for Notice {
    type V = NoticeView;

    open spec fn view(&self) -> NoticeView {
        match self {
            Notice::AgentMessageDelta { delta, text } => NoticeView::AgentMessageDelta {
                delta: opt_text(*delta),
                text: opt_text(*text),
            },
            Notice::TurnStarted { id } => NoticeView::TurnStarted { id: id@ },
            Notice::TurnCompleted { status } => NoticeView::TurnCompleted {
                status: opt_text(*status),
            },
            Notice::ItemCompleted { item } => NoticeView::ItemCompleted { item: item@ },
            Notice::Unknown { method, params } => NoticeView::Unknown {
                method: method@,
                params: params@,
            },
            Notice::Other => NoticeView::Other,
        }
    }
}

/// What comes in from the app-server.
pub enum Incoming {
    Notification(Notice),
    /// A request of the app-server, or the end of the connection.
    Other,
}

/// What an `Incoming` says.
pub enum IncomingView {
    Notification(NoticeView),
    Other,
}

impl View for Incoming {
    type V = IncomingView;

    open spec fn view(&self) -> IncomingView {
        match self {
            Incoming::Notification(notice) => IncomingView::Notification(notice@),
            Incoming::Other => IncomingView::Other,
        }
    }
}

/// Whether `event` tells that a turn is completed.
pub open spec fn is_turn_completed(event: IncomingView) -> bool {
    event matches IncomingView::Notification(notice) && notice is TurnCompleted
}

/// Whether `event` tells that a turn is completed.
pub fn turn_completed(event: &Incoming) -> (r: bool)
    ensures
        r == is_turn_completed(event@),
{
    match event {
        Incoming::Notification(Notice::TurnCompleted { .. }) => true,
        _ => false,
    }
}

/// A text in quotes, with escapes, as Rust shows it for debugging.
pub uninterp spec fn debug_text(s: Seq<char>) -> Seq<char>;

/// The form that the `Debug` implementation of `str` gives a text. It depends on the text alone;
/// which characters are escaped, and how, is left to it.
#[verifier::external_body]
fn debug_of(s: &str) -> (r: String)
    ensures
        r@ == debug_text(s@),
{
    format!("{:?}", s)
}

/// An optional text as it is shown for debugging, where `quoted` is the form of the text itself.
pub open spec fn debug_opt_text(quoted: Option<Seq<char>>) -> Seq<char> {
    match quoted {
        Some(form) => "Some("@ + form + ")"@,
        None => "None"@,
    }
}

/// An optional number as it is shown for debugging.
pub open spec fn debug_opt_number(n: Option<i64>) -> Seq<char> {
    match n {
        Some(value) => "Some("@ + signed_decimal(value as int) + ")"@,
        None => "None"@,
    }
}

/// The text of `found`, or `default` where there is none.
pub open spec fn text_or(found: Option<Seq<char>>, default: Seq<char>) -> Seq<char> {
    match found {
        Some(t) => t,
        None => default,
    }
}

/// The number of characters of a command that are shown.
pub const COMMAND_WIDTH: usize = 120;

/// What is shown of a completed item: commands, with how they ended and how they begin.
pub open spec fn item_output(item: JsonView) -> Seq<char> {
    if text_or(item.text_at("type"@), "?"@) == "commandExecution"@ {
        let code = match item.get("exitCode"@) {
            Some(value) => value.as_i64(),
            None => None,
        };
        "[exec] rc="@ + debug_opt_number(code) + " "@ + head(
            text_or(item.text_at("command"@), ""@),
            COMMAND_WIDTH as nat,
        ) + "\n"@
    } else {
        ""@
    }
}

/// What is shown of a notification without a type of its own: that a goal was cleared, or how it
/// was updated.
pub open spec fn goal_output(method: Seq<char>, params: JsonView) -> Seq<char> {
    if method == "thread/goal/cleared"@ {
        "[goal] cleared\n"@
    } else if method == "thread/goal/updated"@ {
        goal_update(params)
    } else {
        ""@
    }
}

/// What is shown of an update of a goal, which comes under the key `goal`.
pub open spec fn goal_update(params: JsonView) -> Seq<char> {
    match params.get("goal"@) {
        Some(goal) => {
            let used = match goal.get("tokensUsed"@) {
                Some(value) => match value.as_u64() {
                    Some(n) => n,
                    None => 0,
                },
                None => 0,
            };
            "[goal] status="@ + text_or(goal.text_at("status"@), "?"@) + " tokens="@ + decimal(
                used as nat,
            ) + "\n"@
        },
        None => ""@,
    }
}

/// What is shown of a notification.
pub open spec fn notice_output(notice: NoticeView, no_deltas: bool) -> Seq<char> {
    match notice {
        NoticeView::AgentMessageDelta { delta, text } => if no_deltas {
            ""@
        } else {
            match delta {
                Some(piece) => piece,
                None => text_or(text, ""@),
            }
        },
        NoticeView::TurnStarted { id } => "[turn] started "@ + id + "\n"@,
        NoticeView::TurnCompleted { status } => "\n[turn] completed status="@ + debug_opt_text(
            match status {
                Some(t) => Some(debug_text(t)),
                None => None,
            },
        ) + "\n"@,
        NoticeView::ItemCompleted { item } => item_output(item),
        NoticeView::Unknown { method, params } => goal_output(method, params),
        NoticeView::Other => ""@,
    }
}

/// What is shown of a completed turn whose status has the given form, if it has a status.
pub fn turn_line(quoted: Option<String>) -> (r: String)
    ensures
        r@ == "\n[turn] completed status="@ + debug_opt_text(opt_text(quoted)) + "\n"@,
{
    let mut out: String = "\n[turn] completed status=".to_owned();
    match &quoted {
        Some(form) => {
            out.append("Some(");
            out.append(form.as_str());
            out.append(")");
        },
        None => out.append("None"),
    }
    out.append("\n");
    assert(out@ =~= "\n[turn] completed status="@ + debug_opt_text(opt_text(quoted)) + "\n"@);
    out
}

/// What is shown of a completed item.
pub fn item_line(item: &Json) -> (r: String)
    ensures
        r@ == item_output(item@),
{
    let kind: &str = match item.text_at("type") {
        Some(t) => t,
        None => "?",
    };
    if !same_text(kind, "commandExecution") {
        return "".to_owned();
    }
    let command: &str = match item.text_at("command") {
        Some(t) => t,
        None => "",
    };
    let code: Option<i64> = match item.get("exitCode") {
        Some(value) => value.as_i64(),
        None => None,
    };
    let mut out: String = "[exec] rc=".to_owned();
    match code {
        Some(n) => {
            out.append("Some(");
            push_signed(&mut out, n);
            out.append(")");
        },
        None => out.append("None"),
    }
    out.append(" ");
    push_head(&mut out, command, COMMAND_WIDTH);
    out.append("\n");
    assert(out@ =~= item_output(item@));
    out
}

/// What is shown of a notification without a type of its own.
pub fn goal_line(method: &str, params: &Json) -> (r: String)
    ensures
        r@ == goal_output(method@, params@),
{
    if same_text(method, "thread/goal/cleared") {
        return "[goal] cleared\n".to_owned();
    }
    if !same_text(method, "thread/goal/updated") {
        return "".to_owned();
    }
    match params.get("goal") {
        Some(goal) => {
            let status: &str = match goal.text_at("status") {
                Some(t) => t,
                None => "?",
            };
            let used: u64 = match goal.get("tokensUsed") {
                Some(value) => match value.as_u64() {
                    Some(n) => n,
                    None => 0,
                },
                None => 0,
            };
            let mut out: String = "[goal] status=".to_owned();
            out.append(status);
            out.append(" tokens=");
            push_decimal(&mut out, used);
            out.append("\n");
            assert(out@ =~= goal_output(method@, params@));
            out
        },
        None => "".to_owned(),
    }
}

/// What is shown of a notification.
pub fn notice_line(notice: &Notice, no_deltas: bool) -> (r: String)
    ensures
        r@ == notice_output(notice@, no_deltas),
{
    match notice {
        Notice::AgentMessageDelta { delta, text } => {
            if no_deltas {
                return "".to_owned();
            }
            match delta {
                Some(piece) => piece.clone(),
                None => match text {
                    Some(piece) => piece.clone(),
                    None => "".to_owned(),
                },
            }
        },
        Notice::TurnStarted { id } => {
            let mut out: String = "[turn] started ".to_owned();
            out.append(id.as_str());
            out.append("\n");
            out
        },
        Notice::TurnCompleted { status } => {
            let quoted: Option<String> = match status {
                Some(t) => Some(debug_of(t.as_str())),
                None => None,
            };
            turn_line(quoted)
        },
        Notice::ItemCompleted { item } => item_line(item),
        Notice::Unknown { method, params } => goal_line(method.as_str(), params),
        Notice::Other => "".to_owned(),
    }
}

/// What is shown of what comes in.
pub open spec fn incoming_output(incoming: IncomingView, no_deltas: bool) -> Seq<char> {
    match incoming {
        IncomingView::Notification(notice) => notice_output(notice, no_deltas),
        IncomingView::Other => ""@,
    }
}

/// What is shown of what comes in.
pub fn incoming_line(incoming: &Incoming, no_deltas: bool) -> (r: String)
    ensures
        r@ == incoming_output(incoming@, no_deltas),
{
    match incoming {
        Incoming::Notification(notice) => notice_line(notice, no_deltas),
        Incoming::Other => "".to_owned(),
    }
}

/// What is shown of all that came in, one after the other.
pub open spec fn stream_output(stream: Seq<IncomingView>, no_deltas: bool) -> Seq<char>
    decreases stream.len(),
{
    if stream.len() == 0 {
        ""@
    } else {
        stream_output(stream.drop_last(), no_deltas) + incoming_output(stream.last(), no_deltas)
    }
}

/// Whether a piece of the agent's message came in.
pub open spec fn is_delta(incoming: IncomingView) -> bool {
    incoming matches IncomingView::Notification(notice) && notice is AgentMessageDelta
}

/// What came in, without the pieces of the agent's messages.
pub open spec fn without_deltas(stream: Seq<IncomingView>) -> Seq<IncomingView>
    decreases stream.len(),
{
    if stream.len() == 0 {
        stream
    } else if is_delta(stream.last()) {
        without_deltas(stream.drop_last())
    } else {
        without_deltas(stream.drop_last()).push(stream.last())
    }
}

/// With deltas switched off, what is shown of a whole stream is what would be shown of it had
/// there been no deltas in it.
pub proof fn law_no_deltas(stream: Seq<IncomingView>)
    ensures
        stream_output(stream, true) == stream_output(without_deltas(stream), false),
    decreases stream.len(),
{
    reveal_strlit("");
    if stream.len() > 0 {
        let init = stream.drop_last();
        law_no_deltas(init);
        if is_delta(stream.last()) {
            assert(stream_output(init, true) + ""@ =~= stream_output(init, true));
        } else {
            assert(without_deltas(stream).drop_last() =~= without_deltas(init));
            assert(incoming_output(stream.last(), true) == incoming_output(stream.last(), false));
        }
    }
}

/// Both changes of a goal that have no type of their own are shown: that it was cleared, and, where
/// the goal comes along, that it was updated.
pub proof fn law_goal_changes_are_shown(params: JsonView, no_deltas: bool)
    ensures
        notice_output(
            NoticeView::Unknown { method: "thread/goal/cleared"@, params },
            no_deltas,
        ).len() > 0,
        params.get("goal"@) is Some ==> notice_output(
            NoticeView::Unknown { method: "thread/goal/updated"@, params },
            no_deltas,
        ).len() > 0,
{
    reveal_strlit("thread/goal/cleared");
    reveal_strlit("thread/goal/updated");
    reveal_strlit("[goal] cleared\n");
    reveal_strlit("[goal] status=");
    assert("thread/goal/cleared"@[12] == 'c');
    assert("thread/goal/updated"@[12] == 'u');
    assert("[goal] cleared\n"@.len() == 15);
    assert("[goal] status="@.len() == 14);
}

/// Every completed command is shown on a line of its own, however it ended: with its exit code,
/// where that is an integer, and with the first hundred and twenty characters of the command. Of
/// other items nothing is shown.
pub proof fn law_every_command_is_shown(item: Json, no_deltas: bool, r: String)
    requires
        call_ensures(notice_line, (&Notice::ItemCompleted { item }, no_deltas), r),
    ensures
        item@.get("type"@) == Some(JsonView::Text("commandExecution"@)) ==> {
            let code = match item@.get("exitCode"@) {
                Some(JsonView::UInt(n)) if n <= i64::MAX => "Some("@ + decimal(n as nat) + ")"@,
                Some(JsonView::NegInt(n)) => "Some("@ + signed_decimal(n as int) + ")"@,
                _ => "None"@,
            };
            let command = match item@.get("command"@) {
                Some(JsonView::Text(text)) => text,
                _ => ""@,
            };
            r@ == "[exec] rc="@ + code + " "@ + (if command.len() <= 120 {
                command
            } else {
                command.take(120)
            }) + "\n"@
        },
        item@.get("type"@) != Some(JsonView::Text("commandExecution"@)) ==> r@ == ""@,
{
    reveal_strlit("?");
    reveal_strlit("commandExecution");
    assert("?"@.len() == 1 && "commandExecution"@.len() == 16);
}

/// What is shown of an item or of a goal by itself is what is shown of the notification.
pub proof fn law_parts_are_shown_alike(
    item: Json,
    method: String,
    same_method: &str,
    params: Json,
    no_deltas: bool,
    lines: (String, String),
    alone: (String, String),
)
    requires
        call_ensures(notice_line, (&Notice::ItemCompleted { item }, no_deltas), lines.0),
        call_ensures(item_line, (&item,), alone.0),
        call_ensures(notice_line, (&Notice::Unknown { method, params }, no_deltas), lines.1),
        call_ensures(goal_line, (same_method, &params), alone.1),
        same_method@ == method@,
    ensures
        lines.0@ == alone.0@,
        lines.1@ == alone.1@,
{
}

/// A goal that was updated is shown with its status and the tokens used, one that was cleared as
/// cleared; nothing is shown of other notifications without a type of their own.
pub proof fn law_goal_lines_tell_the_goal(
    method: String,
    params: Json,
    no_deltas: bool,
    r: String,
)
    requires
        call_ensures(notice_line, (&Notice::Unknown { method, params }, no_deltas), r),
    ensures
        method@ == "thread/goal/cleared"@ ==> r@ == "[goal] cleared\n"@,
        method@ == "thread/goal/updated"@ ==> match params@.get("goal"@) {
            Some(goal) => {
                let status = match goal.get("status"@) {
                    Some(JsonView::Text(text)) => text,
                    _ => "?"@,
                };
                let used: nat = match goal.get("tokensUsed"@) {
                    Some(JsonView::UInt(n)) => n as nat,
                    _ => 0,
                };
                r@ == "[goal] status="@ + status + " tokens="@ + decimal(used) + "\n"@
            },
            None => r@ == ""@,
        },
        method@ != "thread/goal/cleared"@ && method@ != "thread/goal/updated"@ ==> r@ == ""@,
{
    reveal_strlit("thread/goal/cleared");
    reveal_strlit("thread/goal/updated");
    assert("thread/goal/cleared"@[12] == 'c');
    assert("thread/goal/updated"@[12] == 'u');
}

/// A piece of the agent's message is shown as it is, unless pieces are switched off; turns are
/// shown with their id when they begin and with their status when they end.
pub proof fn law_messages_and_turns_are_shown(notice: Notice, no_deltas: bool, r: String)
    requires
        call_ensures(notice_line, (&notice, no_deltas), r),
    ensures
        match notice {
            Notice::AgentMessageDelta { delta, text } => r@ == (if no_deltas {
                ""@
            } else if delta is Some {
                delta->0@
            } else if text is Some {
                text->0@
            } else {
                ""@
            }),
            Notice::TurnStarted { id } => r@ == "[turn] started "@ + id@ + "\n"@,
            Notice::TurnCompleted { status: Some(status) } => r@ == "\n[turn] completed status="@ + (
            "Some("@ + debug_text(status@) + ")"@) + "\n"@,
            Notice::TurnCompleted { status: None } => r@ == "\n[turn] completed status="@ + "None"@
                + "\n"@,
            Notice::Other => r@ == ""@,
            _ => true,
        },
{
}

/// What comes in is shown as its notification is; of anything else nothing is shown.
pub proof fn law_incoming_is_shown_as_its_notice(
    notice: Notice,
    no_deltas: bool,
    lines: (String, String),
    alone: String,
)
    requires
        call_ensures(incoming_line, (&Incoming::Notification(notice), no_deltas), lines.0),
        call_ensures(incoming_line, (&Incoming::Other, no_deltas), lines.1),
        call_ensures(notice_line, (&notice, no_deltas), alone),
    ensures
        lines.0@ == alone@,
        lines.1@ == ""@,
{
}

/// What comes in later is shown after what came before.
pub proof fn law_stream_is_shown_in_order(
    stream: Seq<IncomingView>,
    next: Incoming,
    no_deltas: bool,
    line: String,
)
    requires
        call_ensures(incoming_line, (&next, no_deltas), line),
    ensures
        stream_output(Seq::empty(), no_deltas) == ""@,
        stream_output(stream.push(next@), no_deltas) == stream_output(stream, no_deltas) + line@,
{
    assert(stream.push(next@).drop_last() =~= stream);
}

/// A turn's end is told by the notification that a turn is completed and by nothing else.
pub proof fn law_completion_tells_a_turns_end(event: Incoming, r: bool)
    requires
        call_ensures(turn_completed, (&event,), r),
    ensures
        r <==> (event matches Incoming::Notification(notice) && notice is TurnCompleted),
{
}

} // verus!
