//! What the plain (non-interactive) output prints for a message.

use vstd::prelude::*;
use vstd::string::*;
use crate::text::{byte_len, byte_prefix, cut_ok, owned, prefix_bytes, str_byte_len};
use crate::types::message::{ContentBlock, Message};

verus! {

/// A line to print, and whether it goes to standard error.
pub struct PrintLine {
    pub text: String,
    pub to_stderr: bool,
}

/// The texts of the text blocks, in order.
pub open spec fn block_texts(blocks: Seq<ContentBlock>) -> Seq<Seq<char>>
    decreases blocks.len(),
{
    if blocks.len() == 0 {
        seq![]
    } else {
        block_texts(blocks.drop_last()) + match blocks.last() {
            ContentBlock::Text { text } => seq![text@],
            _ => seq![],
        }
    }
}

/// A tool result's text as printed: cut after 500 bytes, with a note that
/// it was cut.
pub open spec fn result_preview(content: Seq<char>) -> Seq<char> {
    if byte_len(content) > 500 {
        byte_prefix(content, 500) + "...\n[truncated]"@
    } else {
        content
    }
}

/// The lines printed for a message, each with whether it goes to standard
/// error; `user_debug` is the debug text of a user message's content and
/// `assistant` the assistant's display name.
pub open spec fn printed_lines(msg: Message, user_debug: Seq<char>, assistant: Seq<char>) -> Seq<(Seq<char>, bool)> {
    match msg {
        Message::User { .. } => seq![("\n[You]"@, false), (user_debug, false)],
        Message::Assistant { content } => seq![("\n["@ + assistant + "]"@, false)] + match content {
            Some(c) => block_texts(c.content@).map_values(|t: Seq<char>| (t, false)),
            None => seq![],
        },
        Message::ToolUse { name, .. } => seq![("\n[Using tool: "@ + name@ + "]"@, false)],
        Message::ToolResult { content, is_error, .. } => seq![
            (if is_error { "\n[Tool Error]"@ } else { "\n[Tool Result]"@ }, is_error),
            (result_preview(content@), false),
        ],
        Message::System { message, .. } => seq![("\n[System] "@ + message@, false)],
        _ => seq![],
    }
}

/// Law: a message of the conversation is printed under a heading that
/// starts with a new line and "[", on standard output unless it reports a
/// failed tool; a tool use prints exactly the line "[Using tool: <name>]"
/// after a new line, on standard output; a tool result prints its heading
/// and then its text, on standard output.
pub proof fn lemma_printed_headings(msg: Message, user_debug: Seq<char>, assistant: Seq<char>)
    ensures
        (msg is User || msg is Assistant || msg is ToolUse || msg is ToolResult || msg is System) ==> {
            let lines = printed_lines(msg, user_debug, assistant);
            &&& lines.len() >= 1
            &&& lines[0].0.len() >= 2
            &&& lines[0].0[0] == '\n'
            &&& lines[0].0[1] == '['
            &&& lines[0].1 == (msg matches Message::ToolResult { is_error, .. } && is_error)
        },
        msg matches Message::ToolUse { name, .. } ==> printed_lines(msg, user_debug, assistant)
            == seq![("\n[Using tool: "@ + name@ + "]"@, false)],
        msg matches Message::ToolResult { content, .. } ==> {
            &&& printed_lines(msg, user_debug, assistant).len() == 2
            &&& printed_lines(msg, user_debug, assistant)[1] == (result_preview(content@), false)
        },
        msg matches Message::ToolResult { content, .. } ==> (byte_len(content@) <= 500
            ==> printed_lines(msg, user_debug, assistant)[1].0 == content@),
        msg matches Message::ToolResult { is_error, .. } ==> printed_lines(msg, user_debug, assistant)[0].0
            == if is_error { "\n[Tool Error]"@ } else { "\n[Tool Result]"@ },
        msg is User ==> printed_lines(msg, user_debug, assistant) == seq![("\n[You]"@, false), (user_debug, false)],
        msg matches Message::System { message, .. } ==> printed_lines(msg, user_debug, assistant)
            == seq![("\n[System] "@ + message@, false)],
        msg matches Message::Assistant { content } ==> {
            &&& printed_lines(msg, user_debug, assistant)[0] == ("\n["@ + assistant + "]"@, false)
            &&& printed_lines(msg, user_debug, assistant).drop_first() == match content {
                Some(c) => block_texts(c.content@).map_values(|t: Seq<char>| (t, false)),
                None => Seq::<(Seq<char>, bool)>::empty(),
            }
        },
        (msg is Tombstone || msg is Progress || msg is Attachment || msg is HookResult || msg is GroupedToolUse)
            ==> printed_lines(msg, user_debug, assistant).len() == 0,
{
    reveal_strlit("\n[You]");
    reveal_strlit("\n[");
    reveal_strlit("\n[Using tool: ");
    reveal_strlit("\n[Tool Error]");
    reveal_strlit("\n[Tool Result]");
    reveal_strlit("\n[System] ");
    match msg {
        Message::Assistant { content } => {
            let h = "\n["@ + assistant + "]"@;
            assert(h[0] == '\n' && h[1] == '[');
            let rest = match content {
                Some(c) => block_texts(c.content@).map_values(|t: Seq<char>| (t, false)),
                None => seq![],
            };
            assert((seq![(h, false)] + rest)[0] == (h, false));
            assert((seq![(h, false)] + rest).drop_first() =~= rest);
        },
        Message::ToolUse { name, .. } => {
            let h = "\n[Using tool: "@ + name@ + "]"@;
            assert(h[0] == '\n' && h[1] == '[');
        },
        Message::System { message, .. } => {
            let h = "\n[System] "@ + message@;
            assert(h[0] == '\n' && h[1] == '[');
        },
        _ => {},
    }
}

/// The lines as text and target.
pub open spec fn line_views(lines: Seq<PrintLine>) -> Seq<(Seq<char>, bool)> {
    lines.map_values(|l: PrintLine| (l.text@, l.to_stderr))
}

fn line(text: String, to_stderr: bool) -> (r: PrintLine)
    ensures
        r.text@ == text@,
        r.to_stderr == to_stderr,
{
    PrintLine { text, to_stderr }
}

/// The lines to print for a message; `user_debug` is the debug text of a
/// user message's content and `assistant` the assistant's display name. A
/// tool result's text is cut after 500 bytes, which must fall between
/// characters.
pub fn print_message(msg: &Message, user_debug: &str, assistant: &str) -> (r: Vec<PrintLine>)
    requires
        msg matches Message::ToolResult { content, .. } ==> cut_ok(content@, 500),
    ensures
        line_views(r@) == printed_lines(*msg, user_debug@, assistant@),
{
    let mut r: Vec<PrintLine> = Vec::new();
    match msg {
        Message::User { .. } => {
            r.push(line(owned("\n[You]"), false));
            r.push(line(owned(user_debug), false));
        },
        Message::Assistant { content } => {
            let mut heading = owned("\n[");
            heading.append(assistant);
            heading.append("]");
            let ghost h = heading@;
            r.push(line(heading, false));
            match content {
                Some(c) => {
                    let blocks = &c.content;
                    let mut i: usize = 0;
                    while i < blocks.len()
                        invariant
                            i <= blocks@.len(),
                            h == "\n["@ + assistant@ + "]"@,
                            line_views(r@) == seq![(h, false)] + block_texts(blocks@.take(i as int)).map_values(
                                |t: Seq<char>| (t, false)),
                        decreases blocks.len() - i,
                    {
                        let ghost prev = r@;
                        let ghost texts = block_texts(blocks@.take(i as int));
                        assert(blocks@.take(i + 1).drop_last() =~= blocks@.take(i as int));
                        match &blocks[i] {
                            ContentBlock::Text { text } => {
                                r.push(line(text.clone(), false));
                                assert(block_texts(blocks@.take(i + 1)) =~= texts.push(text@));
                                assert(line_views(r@) =~= line_views(prev).push((text@, false)));
                                assert(texts.push(text@).map_values(|t: Seq<char>| (t, false))
                                    =~= texts.map_values(|t: Seq<char>| (t, false)).push((text@, false)));
                            },
                            _ => {
                                assert(block_texts(blocks@.take(i + 1)) =~= texts);
                            },
                        }
                        i = i + 1;
                    }
                    assert(blocks@.take(blocks@.len() as int) =~= blocks@);
                },
                None => {},
            }
        },
        Message::ToolUse { name, .. } => {
            let mut t = owned("\n[Using tool: ");
            t.append(name.as_str());
            t.append("]");
            r.push(line(t, false));
        },
        Message::ToolResult { content, is_error, .. } => {
            if *is_error {
                r.push(line(owned("\n[Tool Error]"), true));
            } else {
                r.push(line(owned("\n[Tool Result]"), false));
            }
            let c = content.as_str();
            let preview = if str_byte_len(c) > 500 {
                let mut p = owned(prefix_bytes(c, 500));
                p.append("...\n[truncated]");
                p
            } else {
                owned(c)
            };
            r.push(line(preview, false));
        },
        Message::System { message, .. } => {
            let mut t = owned("\n[System] ");
            t.append(message.as_str());
            r.push(line(t, false));
        },
        _ => {},
    }
    assert(line_views(r@) =~= printed_lines(*msg, user_debug@, assistant@));
    r
}

/// The spinner frames, in order.
pub open spec fn spinner_frames() -> Seq<char> {
    seq!['\u{280b}', '\u{2819}', '\u{2839}', '\u{2838}', '\u{283c}', '\u{2834}', '\u{2826}', '\u{2827}', '\u{2807}', '\u{280f}']
}

/// The spinner frame shown at step `frame`; the frames repeat every ten
/// steps.
pub fn spinner_char(frame: usize) -> (r: char)
    ensures
        r == spinner_frames()[(frame % 10) as int],
{
    let frames = vec!['\u{280b}', '\u{2819}', '\u{2839}', '\u{2838}', '\u{283c}', '\u{2834}', '\u{2826}', '\u{2827}',
        '\u{2807}', '\u{280f}'];
    assert(frames@ =~= spinner_frames());
    frames[frame % frames.len()]
}

} // verus!
