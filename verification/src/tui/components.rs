//! What each part of the interactive screen shows: texts, colours and
//! titles, ready to be drawn.

use vstd::prelude::*;
use crate::text::{byte_len, byte_prefix, cut_ok, decimal, owned, prefix_bytes, str_byte_len, u64_to_decimal};
use crate::tui::app::{PermissionPrompt, TuiApp};
use crate::types::message::Message;

verus! {

/// The colours the screen uses.
#[derive(Clone, Copy, PartialEq, Eq, Structural)]
pub enum Color {
    Cyan,
    Green,
    Blue,
    Yellow,
    Red,
    DarkGray,
    White,
}

/// A line of text with its look; no colour means the terminal's own.
pub struct StyledLine {
    pub text: String,
    pub color: Option<Color>,
    pub italic: bool,
}

/// The header: the title and the token counts.
pub struct HeaderView {
    pub title: String,
    pub tokens: String,
}

/// The input box: the text shown and its colour, the border colour and the
/// title.
pub struct InputView {
    pub text: String,
    pub text_color: Color,
    pub border_color: Color,
    pub title: String,
}

/// The permission box: its title and its lines.
pub struct PromptView {
    pub title: String,
    pub lines: Vec<String>,
}

/// The header for the interface's state; `product` is the product's
/// display name.
pub fn render_header(app: &TuiApp, product: &str) -> (r: HeaderView)
    ensures
        r.title@ == if app.is_running { product@ + " (running...)"@ } else { product@ },
        r.tokens@ == decimal(app.input_tokens as nat) + "/"@ + decimal(app.output_tokens as nat),
{
    let title = if app.is_running {
        let mut t = owned(product);
        t.append(" (running...)");
        t
    } else {
        owned(product)
    };
    let mut tokens = u64_to_decimal(app.input_tokens);
    tokens.append("/");
    let o = u64_to_decimal(app.output_tokens);
    tokens.append(o.as_str());
    HeaderView { title, tokens }
}

/// A tool result's text as listed: cut after 100 bytes, with "..." after.
pub open spec fn listed_preview(content: Seq<char>) -> Seq<char> {
    if byte_len(content) > 100 {
        byte_prefix(content, 100) + "..."@
    } else {
        content
    }
}

/// The line listed for a message. `debug` is the debug text of what the
/// line shows of a message that has no text of its own: a user message's
/// content, an assistant message's content (empty when there is none), or
/// the whole message for the other kinds; `assistant` is the assistant's
/// display name.
pub open spec fn message_line(msg: Message, debug: Seq<char>, assistant: Seq<char>) -> (Seq<char>, Option<Color>, bool) {
    match msg {
        Message::User { .. } => ("[You] "@ + debug, Some(Color::Green), false),
        Message::Assistant { .. } => ("["@ + assistant + "] "@ + debug, Some(Color::Blue), false),
        Message::ToolUse { name, .. } => ("[Tool: "@ + name@ + "]"@, Some(Color::Yellow), false),
        Message::ToolResult { content, is_error, .. } => (
            "[Result] "@ + listed_preview(content@),
            Some(if is_error { Color::Red } else { Color::DarkGray }),
            false,
        ),
        Message::System { message, .. } => ("[System] "@ + message@, Some(Color::DarkGray), true),
        _ => (debug, None, false),
    }
}

/// Law: only a system message is listed in italics; a failed tool result
/// is listed in red and a successful one in dark gray; a tool use names
/// its tool; a tool result is listed after "[Result] " with its text
/// whole when it is at most 100 bytes long; a user message is listed after
/// "[You] " and an assistant message after the assistant's name in
/// brackets.
pub proof fn lemma_message_line(msg: Message, debug: Seq<char>, assistant: Seq<char>)
    ensures
        message_line(msg, debug, assistant).2 <==> msg is System,
        message_line(msg, debug, assistant).1 == Some(Color::Red) <==> (msg matches Message::ToolResult { is_error, .. } && is_error),
        msg matches Message::ToolResult { is_error, .. } ==> message_line(msg, debug, assistant).1
            == Some(if is_error { Color::Red } else { Color::DarkGray }),
        msg matches Message::ToolUse { name, .. } ==> message_line(msg, debug, assistant).0
            == "[Tool: "@ + name@ + "]"@,
        msg matches Message::ToolResult { content, .. } ==> (byte_len(content@) <= 100
            ==> message_line(msg, debug, assistant).0 == "[Result] "@ + content@),
        msg is User ==> message_line(msg, debug, assistant).0 == "[You] "@ + debug,
        msg is Assistant ==> message_line(msg, debug, assistant).0 == "["@ + assistant + "] "@ + debug,
{
}

/// The line listed for a message (see `message_line`). A tool result's
/// text is cut after 100 bytes, which must fall between characters.
pub fn format_message(msg: &Message, debug: &str, assistant: &str) -> (r: StyledLine)
    requires
        msg matches Message::ToolResult { content, .. } ==> cut_ok(content@, 100),
    ensures
        (r.text@, r.color, r.italic) == message_line(*msg, debug@, assistant@),
{
    match msg {
        Message::User { .. } => {
            let mut t = owned("[You] ");
            t.append(debug);
            StyledLine { text: t, color: Some(Color::Green), italic: false }
        },
        Message::Assistant { .. } => {
            let mut t = owned("[");
            t.append(assistant);
            t.append("] ");
            t.append(debug);
            StyledLine { text: t, color: Some(Color::Blue), italic: false }
        },
        Message::ToolUse { name, .. } => {
            let mut t = owned("[Tool: ");
            t.append(name.as_str());
            t.append("]");
            StyledLine { text: t, color: Some(Color::Yellow), italic: false }
        },
        Message::ToolResult { content, is_error, .. } => {
            let c = content.as_str();
            let mut t = owned("[Result] ");
            if str_byte_len(c) > 100 {
                t.append(prefix_bytes(c, 100));
                t.append("...");
            } else {
                t.append(c);
            }
            let color = if *is_error { Color::Red } else { Color::DarkGray };
            StyledLine { text: t, color: Some(color), italic: false }
        },
        Message::System { message, .. } => {
            let mut t = owned("[System] ");
            t.append(message.as_str());
            StyledLine { text: t, color: Some(Color::DarkGray), italic: true }
        },
        _ => StyledLine { text: owned(debug), color: None, italic: false },
    }
}

/// The status bar: the error when there is one (red), else the status
/// (yellow while running, grey otherwise).
pub fn render_status(app: &TuiApp) -> (r: StyledLine)
    ensures
        r.text@ == match app.error {
            Some(e) => "Error: "@ + e@,
            None => app.status@,
        },
        r.color == Some(if app.error is Some {
            Color::Red
        } else if app.is_running {
            Color::Yellow
        } else {
            Color::DarkGray
        }),
        !r.italic,
{
    let color = if app.error.is_some() {
        Color::Red
    } else if app.is_running {
        Color::Yellow
    } else {
        Color::DarkGray
    };
    let text = match &app.error {
        Some(e) => {
            let mut t = owned("Error: ");
            t.append(e.as_str());
            t
        },
        None => app.status.clone(),
    };
    StyledLine { text, color: Some(color), italic: false }
}

/// The input box: the input, or a grey hint while it is empty; a grey,
/// "disabled" box while the agent runs.
pub fn render_input(app: &TuiApp) -> (r: InputView)
    ensures
        r.text@ == if app.input@.len() == 0 { "Type your message..."@ } else { app.input@ },
        r.text_color == if app.input@.len() == 0 { Color::DarkGray } else { Color::White },
        r.border_color == if app.is_running { Color::DarkGray } else { Color::Cyan },
        r.title@ == if app.is_running { "Input (disabled)"@ } else { "Input"@ },
{
    let empty = app.input.as_str().is_empty();
    let text = if empty { owned("Type your message...") } else { app.input.clone() };
    let text_color = if empty { Color::DarkGray } else { Color::White };
    let border_color = if app.is_running { Color::DarkGray } else { Color::Cyan };
    let title = if app.is_running { owned("Input (disabled)") } else { owned("Input") };
    InputView { text, text_color, border_color, title }
}

/// The permission box for a question.
pub fn render_permission_prompt(prompt: &PermissionPrompt) -> (r: PromptView)
    ensures
        r.title@ == "Permission: "@ + prompt.tool_name@,
        r.lines@.len() == 5,
        r.lines@[0]@ == "Command: "@ + prompt.command@,
        r.lines@[1]@.len() == 0,
        r.lines@[2]@ == prompt.details@,
        r.lines@[3]@.len() == 0,
        r.lines@[4]@ == "Allow? [y/n/always/never]"@,
{
    let mut title = owned("Permission: ");
    title.append(prompt.tool_name.as_str());
    let mut command = owned("Command: ");
    command.append(prompt.command.as_str());
    let lines = vec![command, String::new(), prompt.details.clone(), String::new(), owned("Allow? [y/n/always/never]")];
    PromptView { title, lines }
}

} // verus!
