//! How keys and pasted text change the interface.

use vstd::prelude::*;
use crate::text::{chars_of, last_index_of, rfind_char, string_of_chars, trim, trim_ws};
use crate::tui::app::TuiApp;

verus! {

/// A key, as far as the interface tells keys apart.
#[derive(Clone, Copy, PartialEq, Eq, Structural)]
pub enum KeyCode {
    Char(char),
    Backspace,
    Delete,
    Enter,
    Esc,
    /// Any other key.
    Other,
}

/// A terminal event, as far as the interface tells events apart.
pub enum InputEvent {
    /// A key press, with whether Control was held.
    Key { code: KeyCode, ctrl: bool },
    /// Text pasted in one piece.
    Paste(String),
    /// Any other event.
    Other,
}

/// The input after a key, and whether the key was taken, when no question
/// is shown and the agent is idle.
pub open spec fn edit_input(s: Seq<char>, code: KeyCode, ctrl: bool) -> (Seq<char>, bool) {
    match code {
        KeyCode::Char(c) => if ctrl {
            if c == 'c' || c == 'u' {
                (seq![], true)
            } else if c == 'w' {
                match last_index_of(s, ' ') {
                    Some(i) => (s.take(i), true),
                    None => (seq![], true),
                }
            } else {
                (s, false)
            }
        } else {
            (s.push(c), true)
        },
        KeyCode::Backspace => (if s.len() > 0 { s.drop_last() } else { s }, true),
        KeyCode::Delete => (s, false),
        KeyCode::Enter => (s, trim_ws(s).len() > 0),
        KeyCode::Esc => (seq![], true),
        KeyCode::Other => (s, false),
    }
}

/// Law: Backspace takes back the character just typed.
pub proof fn lemma_backspace_undoes_char(s: Seq<char>, c: char)
    ensures
        edit_input(edit_input(s, KeyCode::Char(c), false).0, KeyCode::Backspace, false).0 == s,
        edit_input(s, KeyCode::Char(c), false).1,
{
    assert(s.push(c).drop_last() =~= s);
}

/// The position of the last space in `s`, as `last_index_of` finds it:
/// a space stands there and none after it; with no position, `s` holds no
/// space.
proof fn lemma_last_space(s: Seq<char>)
    ensures
        match last_index_of(s, ' ') {
            Some(i) => 0 <= i < s.len() && s[i] == ' ' && forall|j: int| i < j < s.len() ==> s[j] != ' ',
            None => forall|j: int| 0 <= j < s.len() ==> s[j] != ' ',
        },
    decreases s.len(),
{
    if s.len() > 0 && s.last() != ' ' {
        lemma_last_space(s.drop_last());
        assert forall|j: int| 0 <= j < s.len() - 1 implies s[j] == s.drop_last()[j] by {}
    }
}

/// Law: with no question shown, typing a character (without Control)
/// appends it and is taken; Esc, Control-C and Control-U empty the input
/// and are taken; Control-W removes the last word: what is left is the
/// input up to its last space (nothing when it has none), so the removed
/// part starts with that space and holds no other; Enter leaves the input
/// as it is and is taken only when the input holds more than white space.
pub proof fn lemma_edit_keys(s: Seq<char>, c: char)
    ensures
        edit_input(s, KeyCode::Char(c), false) == (s.push(c), true),
        edit_input(s, KeyCode::Esc, false).0.len() == 0 && edit_input(s, KeyCode::Esc, false).1,
        edit_input(s, KeyCode::Char('c'), true).0.len() == 0 && edit_input(s, KeyCode::Char('c'), true).1,
        edit_input(s, KeyCode::Char('u'), true).0.len() == 0 && edit_input(s, KeyCode::Char('u'), true).1,
        ({
            let t = edit_input(s, KeyCode::Char('w'), true).0;
            &&& edit_input(s, KeyCode::Char('w'), true).1
            &&& t.len() <= s.len()
            &&& t == s.take(t.len() as int)
            &&& forall|j: int| t.len() < j < s.len() ==> s[j] != ' '
            &&& (t.len() < s.len() && t.len() > 0) ==> s[t.len() as int] == ' '
            &&& t.len() == 0 && s.len() > 0 ==> (s[0] == ' ' || forall|j: int| 0 <= j < s.len() ==> s[j] != ' ')
        }),
        edit_input(s, KeyCode::Enter, false).0 == s,
        edit_input(s, KeyCode::Enter, false).1 == (trim_ws(s).len() > 0),
{
    lemma_last_space(s);
}

/// Whether a key answers the permission question: yes ("y", "Y", Enter)
/// or no ("n", "N", Esc).
pub open spec fn answers_prompt(code: KeyCode) -> bool {
    ||| code == KeyCode::Char('y')
    ||| code == KeyCode::Char('Y')
    ||| code == KeyCode::Enter
    ||| code == KeyCode::Char('n')
    ||| code == KeyCode::Char('N')
    ||| code == KeyCode::Esc
}

/// `a` and `b` agree on everything but the input and the question.
pub open spec fn same_but_input(a: TuiApp, b: TuiApp) -> bool {
    &&& a.messages@ == b.messages@
    &&& a.is_running == b.is_running
    &&& a.input_tokens == b.input_tokens
    &&& a.output_tokens == b.output_tokens
    &&& a.status == b.status
    &&& a.error == b.error
    &&& a.scroll_offset == b.scroll_offset
}

/// What a key does to the interface, and whether it was taken: nothing
/// while the agent runs; while a question is shown, an answer closes it
/// and every key is taken; else the input is edited.
pub open spec fn key_effect(old: TuiApp, code: KeyCode, ctrl: bool, new: TuiApp, r: bool) -> bool {
    &&& same_but_input(new, old)
    &&& if old.is_running {
        &&& !r
        &&& new.input == old.input
        &&& new.permission_prompt == old.permission_prompt
    } else if old.permission_prompt is Some {
        &&& r
        &&& new.input == old.input
        &&& new.permission_prompt == if answers_prompt(code) { None } else { old.permission_prompt }
    } else {
        &&& new.input@ == edit_input(old.input@, code, ctrl).0
        &&& r == edit_input(old.input@, code, ctrl).1
        &&& new.permission_prompt == old.permission_prompt
    }
}

/// Law: while the permission question is shown and the agent is idle,
/// every key is taken and leaves the input as it is; "y", "Y", Enter, "n",
/// "N" and Esc close the question, and a key that is none of these (such
/// as another letter) leaves it open.
pub proof fn lemma_permission_answers(old: TuiApp, code: KeyCode, ctrl: bool, new: TuiApp, r: bool)
    requires
        old.permission_prompt is Some,
        !old.is_running,
        key_effect(old, code, ctrl, new, r),
    ensures
        r,
        new.input == old.input,
        (code == KeyCode::Char('y') || code == KeyCode::Char('Y') || code == KeyCode::Enter
            || code == KeyCode::Char('n') || code == KeyCode::Char('N') || code == KeyCode::Esc)
            ==> new.permission_prompt is None,
        (code matches KeyCode::Char(c) && c != 'y' && c != 'Y' && c != 'n' && c != 'N')
            ==> new.permission_prompt == old.permission_prompt,
        (code == KeyCode::Backspace || code == KeyCode::Delete || code == KeyCode::Other)
            ==> new.permission_prompt == old.permission_prompt,
{
}

/// Law: answering the permission question directly behaves the same way:
/// "y", "Y", Enter, "n", "N" and Esc close it, other keys leave it open,
/// and the key is always taken.
pub proof fn lemma_permission_key_answers(old: TuiApp, code: KeyCode, new: TuiApp, r: bool)
    requires
        old.permission_prompt is Some,
        r,
        new.permission_prompt == if answers_prompt(code) { None } else { old.permission_prompt },
    ensures
        (code == KeyCode::Char('y') || code == KeyCode::Char('Y') || code == KeyCode::Enter
            || code == KeyCode::Char('n') || code == KeyCode::Char('N') || code == KeyCode::Esc)
            <==> new.permission_prompt is None,
{
}

/// Handles a terminal event; returns whether it was taken. A paste adds its
/// text to the input.
pub fn handle_key_event(event: InputEvent, app: &mut TuiApp) -> (r: bool)
    ensures
        match event {
            InputEvent::Key { code, ctrl } => key_effect(*old(app), code, ctrl, *final(app), r),
            InputEvent::Paste(text) => r && final(app).input@ == old(app).input@ + text@
                && final(app).permission_prompt == old(app).permission_prompt
                && same_but_input(*final(app), *old(app)),
            InputEvent::Other => !r && *final(app) == *old(app),
        },
{
    match event {
        InputEvent::Key { code, ctrl } => handle_key(code, ctrl, app),
        InputEvent::Paste(text) => {
            app.input.append(text.as_str());
            true
        },
        InputEvent::Other => false,
    }
}

/// Handles a key; returns whether it was taken.
pub fn handle_key(code: KeyCode, ctrl: bool, app: &mut TuiApp) -> (r: bool)
    ensures
        key_effect(*old(app), code, ctrl, *final(app), r),
{
    if app.is_running {
        return false;
    }
    if app.permission_prompt.is_some() {
        return handle_permission_key(code, app);
    }
    match code {
        KeyCode::Char(c) => {
            if ctrl {
                if c == 'c' || c == 'u' {
                    app.input = String::new();
                    true
                } else if c == 'w' {
                    let cs = chars_of(app.input.as_str());
                    match rfind_char(&cs, ' ') {
                        Some(pos) => {
                            app.input = string_of_chars(&cs, pos);
                        },
                        None => {
                            app.input = String::new();
                        },
                    }
                    true
                } else {
                    false
                }
            } else {
                let mut s = String::new();
                s.append(app.input.as_str());
                crate::text::push_char(&mut s, c);
                app.input = s;
                true
            }
        },
        KeyCode::Backspace => {
            let cs = chars_of(app.input.as_str());
            if cs.len() > 0 {
                app.input = string_of_chars(&cs, cs.len() - 1);
                assert(cs@.take(cs@.len() - 1) =~= cs@.drop_last());
            }
            true
        },
        KeyCode::Delete => false,
        KeyCode::Enter => !trim(app.input.as_str()).is_empty(),
        KeyCode::Esc => {
            app.input = String::new();
            true
        },
        KeyCode::Other => false,
    }
}

/// Handles a key while the permission question is shown: an answer closes
/// the question; every key is taken.
pub fn handle_permission_key(code: KeyCode, app: &mut TuiApp) -> (r: bool)
    ensures
        r,
        final(app).permission_prompt == if answers_prompt(code) { None } else { old(app).permission_prompt },
        final(app).input == old(app).input,
        same_but_input(*final(app), *old(app)),
{
    match code {
        KeyCode::Char(c) => {
            if c == 'y' || c == 'Y' || c == 'n' || c == 'N' {
                app.permission_prompt = None;
            }
            true
        },
        KeyCode::Enter | KeyCode::Esc => {
            app.permission_prompt = None;
            true
        },
        _ => true,
    }
}

/// Takes the submitted text: the input without surrounding white space,
/// which is then cleared; `None`, with the input left as it is, when that
/// text is empty.
pub fn consume_input(app: &mut TuiApp) -> (r: Option<String>)
    ensures
        trim_ws(old(app).input@).len() == 0 ==> r is None && final(app).input == old(app).input,
        trim_ws(old(app).input@).len() > 0 ==> (r matches Some(t) && t@ == trim_ws(old(app).input@)
            && final(app).input@.len() == 0),
        final(app).permission_prompt == old(app).permission_prompt,
        same_but_input(*final(app), *old(app)),
{
    let text = String::from_str(trim(app.input.as_str()));
    if text.as_str().is_empty() {
        return None;
    }
    app.input = String::new();
    Some(text)
}

} // verus!
