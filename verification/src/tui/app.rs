//! State of the interactive terminal interface.

use vstd::prelude::*;
use std::collections::VecDeque;
use crate::text::owned;
use crate::types::message::Message;

verus! {

/// The most messages the history keeps.
pub const MAX_HISTORY: usize = 1000;

/// State of the interactive interface.
pub struct TuiApp {
    /// Chat history.
    pub messages: VecDeque<Message>,
    /// What has been typed so far.
    pub input: String,
    /// Whether the agent is running.
    pub is_running: bool,
    /// Token usage of the session.
    pub input_tokens: u64,
    pub output_tokens: u64,
    /// The status line.
    pub status: String,
    /// The error shown, if any.
    pub error: Option<String>,
    /// The permission question shown, if any.
    pub permission_prompt: Option<PermissionPrompt>,
    /// Scroll position in the history.
    pub scroll_offset: usize,
}

/// A permission question put to the user.
pub struct PermissionPrompt {
    pub tool_name: String,
    pub command: String,
    pub details: String,
}

/// The history after `msg` arrives: when it is full, the oldest message
/// leaves first.
pub open spec fn history_after(old: Seq<Message>, msg: Message) -> Seq<Message> {
    if old.len() >= MAX_HISTORY {
        old.drop_first().push(msg)
    } else {
        old.push(msg)
    }
}

/// `a` and `b` agree on everything but the history.
pub open spec fn same_but_history(a: TuiApp, b: TuiApp) -> bool {
    &&& a.input == b.input
    &&& a.is_running == b.is_running
    &&& a.input_tokens == b.input_tokens
    &&& a.output_tokens == b.output_tokens
    &&& a.status == b.status
    &&& a.error == b.error
    &&& a.permission_prompt == b.permission_prompt
    &&& a.scroll_offset == b.scroll_offset
}

/// `a` and `b` agree on everything but the running flag, the status and
/// the error.
pub open spec fn same_but_state(a: TuiApp, b: TuiApp) -> bool {
    &&& a.messages@ == b.messages@
    &&& a.input == b.input
    &&& a.input_tokens == b.input_tokens
    &&& a.output_tokens == b.output_tokens
    &&& a.permission_prompt == b.permission_prompt
    &&& a.scroll_offset == b.scroll_offset
}

/// Law: a history that is not over the limit stays within it, and the
/// newest message is the one that arrived; below the limit nothing is
/// lost, and at the limit only the oldest message leaves.
pub proof fn lemma_history_bounded(old: Seq<Message>, msg: Message)
    requires
        old.len() <= MAX_HISTORY,
    ensures
        history_after(old, msg).len() <= MAX_HISTORY,
        history_after(old, msg).len() >= 1,
        history_after(old, msg).last() == msg,
        old.len() < MAX_HISTORY ==> history_after(old, msg).drop_last() == old,
        old.len() == MAX_HISTORY ==> history_after(old, msg).len() == MAX_HISTORY
            && history_after(old, msg).drop_last() == old.skip(1),
{
    if old.len() < MAX_HISTORY {
        assert(old.push(msg).drop_last() =~= old);
    } else {
        assert(old.drop_first().push(msg).drop_last() =~= old.skip(1));
    }
}

impl TuiApp {
    /// A fresh interface: no history, no input, idle, "Ready".
    pub fn new() -> (r: Self)
        ensures
            r.messages@.len() == 0,
            r.input@.len() == 0,
            !r.is_running,
            r.input_tokens == 0,
            r.output_tokens == 0,
            r.status@ == "Ready"@,
            r.error is None,
            r.permission_prompt is None,
            r.scroll_offset == 0,
    {
        TuiApp {
            messages: VecDeque::new(),
            input: String::new(),
            is_running: false,
            input_tokens: 0,
            output_tokens: 0,
            status: owned("Ready"),
            error: None,
            permission_prompt: None,
            scroll_offset: 0,
        }
    }

    /// Adds a message to the history, dropping the oldest when the history
    /// is full.
    pub fn add_message(&mut self, msg: Message)
        ensures
            final(self).messages@ == history_after(old(self).messages@, msg),
            same_but_history(*final(self), *old(self)),
    {
        if self.messages.len() >= MAX_HISTORY {
            let _ = self.messages.pop_front();
        }
        self.messages.push_back(msg);
    }

    /// Marks the agent as running or not: the status becomes "Thinking..."
    /// or "Ready".
    pub fn set_running(&mut self, running: bool)
        ensures
            final(self).is_running == running,
            final(self).status@ == if running { "Thinking..."@ } else { "Ready"@ },
            final(self).error == old(self).error,
            same_but_state(*final(self), *old(self)),
    {
        self.is_running = running;
        if running {
            self.status = owned("Thinking...");
        } else {
            self.status = owned("Ready");
        }
    }

    /// Shows an error, or clears it; showing one sets the status to
    /// "Error".
    pub fn set_error(&mut self, msg: Option<String>)
        ensures
            final(self).error == msg,
            msg is Some ==> final(self).status@ == "Error"@,
            msg is None ==> final(self).status == old(self).status,
            final(self).is_running == old(self).is_running,
            same_but_state(*final(self), *old(self)),
    {
        self.error = msg;
        if self.error.is_some() {
            self.status = owned("Error");
        }
    }

    /// Input and output tokens together.
    pub fn total_tokens(&self) -> (r: u64)
        requires
            self.input_tokens + self.output_tokens <= u64::MAX,
        ensures
            r == self.input_tokens + self.output_tokens,
    {
        self.input_tokens + self.output_tokens
    }
}

impl Default for TuiApp {
    fn default() -> (r: Self)
        ensures
            r.messages@.len() == 0,
            r.status@ == "Ready"@,
    {
        TuiApp::new()
    }
}

} // verus!
