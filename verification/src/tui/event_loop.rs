//! The line-based interactive mode: reading a line key by key, telling
//! what a line asks for, and the texts the mode prints.

use vstd::prelude::*;
use crate::text::{chars_of, decimal, has_prefix, owned, push_char, split_char, split_on, starts_with, str_eq,
    string_of_chars, string_of_range, trim, trim_ws, u64_to_decimal, views};
use crate::tui::output::PrintLine;

verus! {

/// A key, as far as line reading tells keys apart.
#[derive(Clone, Copy, PartialEq, Eq, Structural)]
pub enum LineKey {
    Char(char),
    Enter,
    Backspace,
    Esc,
    /// Any other key.
    Other,
}

/// What the terminal gave while a line was read.
pub enum LineEvent {
    /// A key press, with whether Control was held.
    Key { code: LineKey, ctrl: bool },
    /// An event that is not a key, an error reading one, or a pause with
    /// no event: skipped.
    Skipped,
    /// The event stream ended.
    Ended,
}

/// What line reading does after an event.
pub enum LineStep {
    /// Go on reading.
    Continue,
    /// A character was added: show it.
    Echo(char),
    /// The last character was removed: erase it on screen.
    Erase,
    /// Reading is over, with this line.
    Done(String),
}

/// The line so far after an event, and whether reading ends (with what).
pub open spec fn line_after(s: Seq<char>, ev: LineEvent) -> (Seq<char>, Option<Seq<char>>) {
    match ev {
        LineEvent::Key { code, ctrl } => if ctrl && code == LineKey::Char('c') {
            (s, Some(seq![]))
        } else {
            match code {
                LineKey::Enter => (s, Some(s)),
                LineKey::Char(c) => (s.push(c), None),
                LineKey::Backspace => (if s.len() > 0 { s.drop_last() } else { s }, None),
                LineKey::Esc => (s, Some(seq![])),
                LineKey::Other => (s, None),
            }
        },
        LineEvent::Skipped => (s, None),
        LineEvent::Ended => (s, Some(s)),
    }
}

/// Law: while a line is read, Backspace takes back the character just
/// typed, and neither ends the line.
pub proof fn lemma_line_backspace_undoes_char(s: Seq<char>, c: char)
    ensures
        line_after(line_after(s, LineEvent::Key { code: LineKey::Char(c), ctrl: false }).0,
            LineEvent::Key { code: LineKey::Backspace, ctrl: false }).0 == s,
        line_after(s, LineEvent::Key { code: LineKey::Char(c), ctrl: false }).1 is None,
        line_after(s.push(c), LineEvent::Key { code: LineKey::Backspace, ctrl: false }).1 is None,
{
    assert(s.push(c).drop_last() =~= s);
}

/// Takes one event into the line being read: Enter ends the line, Esc and
/// Control-C end it empty, a character is added and echoed, Backspace
/// removes the last character, and the end of the events ends the line as
/// it is.
pub fn read_line_step(line: &mut String, ev: LineEvent) -> (r: LineStep)
    ensures
        final(line)@ == line_after(old(line)@, ev).0,
        match line_after(old(line)@, ev).1 {
            Some(t) => r matches LineStep::Done(d) && d@ == t,
            None => match ev {
                LineEvent::Key { code: LineKey::Char(c), .. } => r == LineStep::Echo(c),
                LineEvent::Key { code: LineKey::Backspace, .. } => if old(line)@.len() > 0 {
                    r is Erase
                } else {
                    r is Continue
                },
                _ => r is Continue,
            },
        },
{
    match ev {
        LineEvent::Key { code, ctrl } => {
            if ctrl && code == LineKey::Char('c') {
                return LineStep::Done(String::new());
            }
            match code {
                LineKey::Enter => LineStep::Done(line.clone()),
                LineKey::Char(c) => {
                    push_char(line, c);
                    LineStep::Echo(c)
                },
                LineKey::Backspace => {
                    let cs = chars_of(line.as_str());
                    if cs.len() > 0 {
                        *line = string_of_chars(&cs, cs.len() - 1);
                        assert(cs@.take(cs@.len() - 1) =~= cs@.drop_last());
                        LineStep::Erase
                    } else {
                        LineStep::Continue
                    }
                },
                LineKey::Esc => LineStep::Done(String::new()),
                LineKey::Other => LineStep::Continue,
            }
        },
        LineEvent::Skipped => LineStep::Continue,
        LineEvent::Ended => LineStep::Done(line.clone()),
    }
}

/// What an entered line asks for.
pub enum ReplLine {
    /// Nothing but white space.
    Empty,
    /// "/multi" with no prompts: show how to use it.
    MultiUsage,
    /// "/multi" with text that holds no prompt.
    MultiEmpty,
    /// "/multi" with these prompts, to run in parallel.
    Multi(Vec<String>),
    /// Anything else: a command or a message, without surrounding space.
    Text(String),
}

/// The prompts of a "/multi" line's text: the pieces between ';', trimmed,
/// the empty ones left out.
pub open spec fn multi_prompts(p: Seq<char>) -> Seq<Seq<char>> {
    split_on(p, ';').map_values(|x: Seq<char>| trim_ws(x)).filter(|x: Seq<char>| x.len() > 0)
}

/// What a line asks for (see `ReplLine`), as views.
pub open spec fn line_request(line: Seq<char>) -> (int, Seq<Seq<char>>) {
    let t = trim_ws(line);
    if t.len() == 0 {
        (0, seq![])
    } else if has_prefix(t, "/multi "@) || t == "/multi"@ {
        let p = trim_ws(if has_prefix(t, "/multi "@) { t.skip(7) } else { seq![] });
        if p.len() == 0 {
            (1, seq![])
        } else if multi_prompts(p).len() == 0 {
            (2, seq![])
        } else {
            (3, multi_prompts(p))
        }
    } else {
        (4, seq![t])
    }
}

/// Law: a line of white space asks for nothing; a line that is neither
/// that nor a "/multi" command is passed on as the line without its
/// surrounding white space; the prompts of a "/multi" line are never empty.
pub proof fn lemma_line_request(line: Seq<char>)
    ensures
        line_request(line).0 == 0 <==> trim_ws(line).len() == 0,
        (trim_ws(line).len() > 0 && !has_prefix(trim_ws(line), "/multi "@) && trim_ws(line) != "/multi"@)
            ==> line_request(line) == (4int, seq![trim_ws(line)]),
        line_request(line).0 == 3 ==> line_request(line).1.len() > 0
            && forall|k: int| 0 <= k < line_request(line).1.len() ==> (#[trigger] line_request(line).1[k]).len() > 0,
{
    let t = trim_ws(line);
    if t.len() > 0 && (has_prefix(t, "/multi "@) || t == "/multi"@) {
        let p = trim_ws(if has_prefix(t, "/multi "@) { t.skip(7) } else { seq![] });
        if p.len() > 0 {
            let f = |x: Seq<char>| x.len() > 0;
            let ps = split_on(p, ';').map_values(|x: Seq<char>| trim_ws(x));
            assert forall|k: int| 0 <= k < ps.filter(f).len() implies (#[trigger] ps.filter(f)[k]).len() > 0 by {
                ps.lemma_filter_pred(f, k);
            }
        }
    }
}

/// The shape of a `ReplLine`, as in `line_request`.
pub open spec fn repl_line_view(r: ReplLine) -> (int, Seq<Seq<char>>) {
    match r {
        ReplLine::Empty => (0, seq![]),
        ReplLine::MultiUsage => (1, seq![]),
        ReplLine::MultiEmpty => (2, seq![]),
        ReplLine::Multi(ps) => (3, views(ps@)),
        ReplLine::Text(t) => (4, seq![t@]),
    }
}

/// The prompts of a "/multi" line's text.
fn prompts_of(p: &str) -> (r: Vec<String>)
    ensures
        views(r@) == multi_prompts(p@),
{
    let pieces = split_char(p, ';');
    let ghost f = |x: Seq<char>| x.len() > 0;
    let ghost tr = split_on(p@, ';').map_values(|x: Seq<char>| trim_ws(x));
    let mut r: Vec<String> = Vec::new();
    let mut i: usize = 0;
    while i < pieces.len()
        invariant
            i <= pieces@.len(),
            views(pieces@) == split_on(p@, ';'),
            tr == split_on(p@, ';').map_values(|x: Seq<char>| trim_ws(x)),
            f == (|x: Seq<char>| x.len() > 0),
            views(r@) == tr.take(i as int).filter(f),
        decreases pieces.len() - i,
    {
        let t = String::from_str(trim(pieces[i].as_str()));
        proof {
            reveal(Seq::filter);
            assert(tr.take(i + 1).drop_last() =~= tr.take(i as int));
            assert(tr[i as int] == t@);
        }
        if !t.as_str().is_empty() {
            let ghost before = r@;
            r.push(t);
            assert(views(r@) =~= views(before).push(t@));
        }
        i = i + 1;
    }
    assert(tr.take(i as int) =~= tr);
    r
}

/// What an entered line asks for.
pub fn classify_line(line: &str) -> (r: ReplLine)
    ensures
        repl_line_view(r) == line_request(line@),
{
    let t = trim(line);
    if t.is_empty() {
        return ReplLine::Empty;
    }
    proof {
        reveal_strlit("/multi ");
        reveal_strlit("/multi");
    }
    let with_space = starts_with(t, "/multi ");
    if with_space || str_eq(t, "/multi") {
        let rest = if with_space {
            let cs = chars_of(t);
            string_of_range(&cs, 7, cs.len())
        } else {
            String::new()
        };
        assert(rest@ == if has_prefix(t@, "/multi "@) { t@.skip(7) } else { seq![] });
        let p = trim(rest.as_str());
        if p.is_empty() {
            return ReplLine::MultiUsage;
        }
        let prompts = prompts_of(p);
        if prompts.len() == 0 {
            return ReplLine::MultiEmpty;
        }
        return ReplLine::Multi(prompts);
    }
    ReplLine::Text(String::from_str(t))
}

/// `s` padded with spaces on the right to `n` characters.
pub open spec fn pad_to(s: Seq<char>, n: int) -> Seq<char> {
    if s.len() >= n {
        s
    } else {
        s + Seq::new((n - s.len()) as nat, |i: int| ' ')
    }
}

fn pad_right(s: &str, n: usize) -> (r: String)
    ensures
        r@ == pad_to(s@, n as int),
{
    let cs = chars_of(s);
    let mut r = owned(s);
    let mut k: usize = cs.len();
    while k < n
        invariant
            cs@ == s@,
            cs@.len() <= k <= n || (k == cs@.len() && k >= n),
            r@ == s@ + Seq::new((k - cs@.len()) as nat, |i: int| ' '),
        decreases n - k,
    {
        push_char(&mut r, ' ');
        assert(r@ =~= s@ + Seq::new((k + 1 - cs@.len()) as nat, |i: int| ' '));
        k = k + 1;
    }
    assert(s@.len() >= n ==> r@ =~= s@);
    r
}

/// A help line: the command padded to 18 characters, then what it does.
pub open spec fn help_line(command: Seq<char>, what: Seq<char>) -> Seq<char> {
    "  "@ + pad_to(command, 18) + " "@ + what
}

/// The commands the help lists, each with what it does; `product` is the
/// product's display name.
pub open spec fn help_entries(product: Seq<char>) -> Seq<(Seq<char>, Seq<char>)> {
    seq![
        ("/help, /h"@, "Show this help"@),
        ("/exit, /q"@, "Exit "@ + product),
        ("/clear"@, "Clear conversation"@),
        ("/session"@, "Show session info"@),
        ("/model, /m"@, "Show current model"@),
        ("/tokens, /tc"@, "Show token usage"@),
        ("/cost"@, "Show estimated cost"@),
        ("/config, /cfg"@, "Show configuration"@),
        ("/multi <p1>; <p2>; ..."@, "Run prompts in parallel agents"@),
    ]
}

/// The help text of the interactive mode.
pub struct ReplHistory;

impl ReplHistory {
    /// The lines of the help: a heading, one line per command, and an empty
    /// line; `product` is the product's display name.
    pub fn help_lines(product: &str) -> (r: Vec<String>)
        ensures
            r@.len() == help_entries(product@).len() + 2,
            r@[0]@ == "\n"@ + product@ + " \u{2014} Available commands:"@,
            forall|i: int| 0 <= i < help_entries(product@).len() ==> #[trigger] r@[i + 1]@ == help_line(
                help_entries(product@)[i].0, help_entries(product@)[i].1),
            r@[help_entries(product@).len() as int + 1]@.len() == 0,
    {
        let commands = vec!["/help, /h", "/exit, /q", "/clear", "/session", "/model, /m", "/tokens, /tc", "/cost",
            "/config, /cfg", "/multi <p1>; <p2>; ..."];
        let mut exit = owned("Exit ");
        exit.append(product);
        let whats = vec![owned("Show this help"), exit, owned("Clear conversation"), owned("Show session info"),
            owned("Show current model"), owned("Show token usage"), owned("Show estimated cost"),
            owned("Show configuration"), owned("Run prompts in parallel agents")];
        assert(commands@.len() == 9 && whats@.len() == 9);
        let mut heading = owned("\n");
        heading.append(product);
        heading.append(" \u{2014} Available commands:");
        let ghost h = heading@;
        let mut r: Vec<String> = vec![heading];
        let mut i: usize = 0;
        while i < 9
            invariant
                i <= 9,
                commands@.len() == 9,
                whats@.len() == 9,
                forall|j: int| 0 <= j < 9 ==> commands@[j]@ == #[trigger] help_entries(product@)[j].0 && whats@[j]@
                    == help_entries(product@)[j].1,
                r@.len() == i + 1,
                h == "\n"@ + product@ + " \u{2014} Available commands:"@,
                r@[0]@ == h,
                forall|j: int| 0 <= j < i ==> #[trigger] r@[j + 1]@ == help_line(help_entries(product@)[j].0,
                    help_entries(product@)[j].1),
            decreases 9 - i,
        {
            let mut l = owned("  ");
            let padded = pad_right(commands[i], 18);
            l.append(padded.as_str());
            l.append(" ");
            l.append(whats[i].as_str());
            r.push(l);
            i = i + 1;
        }
        r.push(String::new());
        r
    }
}

/// The lines shown for "/multi" without prompts.
pub fn multi_usage_lines() -> (r: Vec<String>)
    ensures
        r@.len() == 2,
        r@[0]@ == "Usage: /multi <prompt1> [; <prompt2> [; ...]]"@,
        r@[1]@ == "Runs multiple agents in parallel. Separate prompts with ';'"@,
{
    vec![owned("Usage: /multi <prompt1> [; <prompt2> [; ...]]"),
        owned("Runs multiple agents in parallel. Separate prompts with ';'")]
}

/// "\n[Coordinator] Spawning <n> agents in parallel...".
pub fn spawning_line(n: usize) -> (r: String)
    ensures
        r@ == "\n[Coordinator] Spawning "@ + decimal(n as nat) + " agents in parallel..."@,
{
    let mut t = owned("\n[Coordinator] Spawning ");
    let d = u64_to_decimal(n as u64);
    t.append(d.as_str());
    t.append(" agents in parallel...");
    t
}

/// The heading printed before the result of the agent at index `i`,
/// numbered from 1.
pub fn agent_heading(i: usize) -> (r: String)
    requires
        i < usize::MAX,
    ensures
        r@ == "\n--- Agent "@ + decimal((i + 1) as nat) + " ---\n"@,
{
    let mut t = owned("\n--- Agent ");
    let d = u64_to_decimal((i + 1) as u64);
    t.append(d.as_str());
    t.append(" ---\n");
    t
}

/// The line printed for the result of the agent at index `i`: its output,
/// "(no output)" when it printed nothing, or its error on standard error.
pub fn agent_result_line(i: usize, result: Result<String, String>) -> (r: PrintLine)
    requires
        i < usize::MAX,
    ensures
        match result {
            Ok(out) => !r.to_stderr && r.text@ == if out@.len() == 0 { "(no output)"@ } else { out@ },
            Err(e) => r.to_stderr && r.text@ == "[Agent "@ + decimal((i + 1) as nat) + " error: "@ + e@ + "]"@,
        },
{
    match result {
        Ok(out) => {
            if out.as_str().is_empty() {
                PrintLine { text: owned("(no output)"), to_stderr: false }
            } else {
                PrintLine { text: out, to_stderr: false }
            }
        },
        Err(e) => {
            let mut t = owned("[Agent ");
            let d = u64_to_decimal((i + 1) as u64);
            t.append(d.as_str());
            t.append(" error: ");
            t.append(e.as_str());
            t.append("]");
            PrintLine { text: t, to_stderr: true }
        },
    }
}

/// What a command's output asks for.
pub enum CommandReply {
    /// Leave the interactive mode.
    Exit,
    /// Show what the command printed; empty outputs are not shown.
    Show { stdout: Option<String>, stderr: Option<String> },
}

/// A command that failed and printed nothing asks to leave; otherwise its
/// non-empty outputs are shown.
pub fn command_reply(success: bool, stdout: String, stderr: String) -> (r: CommandReply)
    ensures
        (!success && stdout@.len() == 0 && stderr@.len() == 0) ==> r is Exit,
        !(!success && stdout@.len() == 0 && stderr@.len() == 0) ==> (r matches CommandReply::Show {
            stdout: o,
            stderr: e,
        } && (match o {
            Some(x) => stdout@.len() > 0 && x@ == stdout@,
            None => stdout@.len() == 0,
        }) && (match e {
            Some(x) => stderr@.len() > 0 && x@ == stderr@,
            None => stderr@.len() == 0,
        })),
{
    let out_empty = stdout.as_str().is_empty();
    let err_empty = stderr.as_str().is_empty();
    if !success && out_empty && err_empty {
        return CommandReply::Exit;
    }
    CommandReply::Show {
        stdout: if out_empty { None } else { Some(stdout) },
        stderr: if err_empty { None } else { Some(stderr) },
    }
}

/// "[Command error: <error>]".
pub fn command_error_line(e: &str) -> (r: String)
    ensures
        r@ == "[Command error: "@ + e@ + "]"@,
{
    let mut t = owned("[Command error: ");
    t.append(e);
    t.append("]");
    t
}

} // verus!
