//! Bash tool: run a shell command and report what it printed.

use vstd::prelude::*;
use vstd::string::*;
use vstd::utf8::*;
use std::collections::HashMap;
use crate::error::CliError;
use crate::text::{byte_len, byte_prefix, cut_ok, decimal, owned, prefix_bytes, str_byte_len,
    u64_to_decimal, views};
use crate::types::tool::{text_blocks, ResultContentBlock, Tool, ToolMetrics, ToolResult};

verus! {

/// The arguments of a Bash call.
pub struct BashInput {
    pub command: String,
    pub timeout: Option<u64>,
    pub working_directory: Option<String>,
    pub environment: Option<HashMap<String, String>>,
}

/// How a run of the command came out, as the process runner saw it.
pub enum CommandOutcome {
    /// The shell could not be started; the error's text.
    SpawnFailed(String),
    /// The command ran to its end.
    Finished { success: bool, stdout: String, stderr: String, duration_ms: u64 },
    /// The child process had already been taken when the wait began.
    AlreadyTaken,
    /// Waiting for the child failed; the error's text.
    WaitFailed(String),
    /// The command was still running when the timeout ran out.
    TimedOut,
}

/// The text blocks reported for a finished command. A failed command shows
/// its standard error (under a "stderr:" heading) and its standard output;
/// a successful command shows its standard output; a command that wrote
/// only to standard error shows that text; when nothing was collected,
/// "(no output)".
pub open spec fn bash_texts(success: bool, out: Seq<char>, err: Seq<char>) -> Seq<Seq<char>> {
    let first: Seq<Seq<char>> = if !success {
        (if err.len() > 0 { seq!["stderr:\n"@ + err] } else { seq![] })
            + (if out.len() > 0 { seq![out] } else { seq![] })
    } else if out.len() > 0 {
        seq![out]
    } else {
        seq![]
    };
    let all = first + (if out.len() == 0 && err.len() > 0 { seq![err] } else { seq![] });
    if all.len() == 0 {
        seq!["(no output)"@]
    } else {
        all
    }
}

/// "Command timed out after <n> seconds".
pub open spec fn timeout_text(timeout: u64) -> Seq<char> {
    "Command timed out after "@ + decimal(timeout as nat) + " seconds"@
}

/// What the Bash tool reports for an outcome.
pub open spec fn bash_reply(timeout: u64, outcome: CommandOutcome, r: Result<ToolResult, CliError>) -> bool {
    match outcome {
        CommandOutcome::SpawnFailed(e) => r matches Err(CliError::ToolExecution(m)) && m@ == e@,
        CommandOutcome::AlreadyTaken => r matches Ok(res) && res.is_error && res.metrics is None
            && text_blocks(res.content@, seq!["child already taken"@]),
        CommandOutcome::WaitFailed(e) => r matches Ok(res) && res.is_error && res.metrics is None
            && text_blocks(res.content@, seq!["failed to wait: "@ + e@]),
        CommandOutcome::TimedOut => r matches Ok(res) && res.is_error && res.metrics is None
            && text_blocks(res.content@, seq![timeout_text(timeout)]),
        CommandOutcome::Finished { success, stdout, stderr, duration_ms } => r matches Ok(res)
            && res.is_error == !success
            && res.metrics == Some(ToolMetrics { duration_ms, tokens_used: None })
            && text_blocks(res.content@, bash_texts(success, stdout@, stderr@)),
    }
}

/// What the Bash tool shows when it is used: the command, cut after 60
/// bytes with "..." appended; a fixed line when the arguments did not
/// parse.
pub open spec fn bash_use_text(input: Option<BashInput>) -> Seq<char> {
    match input {
        Some(i) => "Executing: "@ + (if byte_len(i.command@) > 60 {
            byte_prefix(i.command@, 60) + "..."@
        } else {
            i.command@
        }),
        None => "Executing bash command"@,
    }
}

/// Runs shell commands.
pub struct BashTool {
    timeout_secs: u64,
}

impl BashTool {
    /// The timeout used when a call names none.
    pub closed spec fn default_timeout(&self) -> u64 {
        self.timeout_secs
    }

    /// A tool whose default timeout is 300 seconds.
    pub fn new() -> (r: Self)
        ensures
            r.default_timeout() == 300,
    {
        BashTool { timeout_secs: 300 }
    }

    /// The timeout for a call: the one it names, else the default.
    pub fn effective_timeout(&self, input: &BashInput) -> (r: u64)
        ensures
            r == match input.timeout {
                Some(t) => t,
                None => self.default_timeout(),
            },
    {
        match input.timeout {
            Some(t) => t,
            None => self.timeout_secs,
        }
    }

    /// The result of a call whose command came out as `outcome`, with
    /// `timeout` the number of seconds it was given.
    pub fn finish(&self, timeout: u64, outcome: CommandOutcome) -> (r: Result<ToolResult, CliError>)
        ensures
            bash_reply(timeout, outcome, r),
    {
        match outcome {
            CommandOutcome::SpawnFailed(e) => Err(CliError::ToolExecution(e)),
            CommandOutcome::AlreadyTaken => Ok(ToolResult::error(owned("child already taken"))),
            CommandOutcome::WaitFailed(e) => {
                let mut t = owned("failed to wait: ");
                t.append(e.as_str());
                Ok(ToolResult::error(t))
            },
            CommandOutcome::TimedOut => {
                let mut t = owned("Command timed out after ");
                let n = u64_to_decimal(timeout);
                t.append(n.as_str());
                t.append(" seconds");
                Ok(ToolResult::error(t))
            },
            CommandOutcome::Finished { success, stdout, stderr, duration_ms } => {
                let content = collect_output(success, stdout, stderr);
                Ok(ToolResult {
                    content,
                    is_error: !success,
                    metrics: Some(ToolMetrics { duration_ms, tokens_used: None }),
                })
            },
        }
    }

    /// The line shown when the tool is used; `None` when the arguments did
    /// not parse.
    pub fn render_use_message(&self, input: Option<&BashInput>) -> (r: String)
        requires
            input matches Some(i) ==> cut_ok(i.command@, 60),
        ensures
            r@ == bash_use_text(match input { Some(i) => Some(*i), None => None }),
    {
        match input {
            Some(i) => {
                let mut r = owned("Executing: ");
                let cmd = i.command.as_str();
                if str_byte_len(cmd) > 60 {
                    r.append(prefix_bytes(cmd, 60));
                    r.append("...");
                } else {
                    r.append(cmd);
                }
                r
            },
            None => owned("Executing bash command"),
        }
    }
}

/// The text blocks of a finished command's result.
fn collect_output(success: bool, stdout: String, stderr: String) -> (r: Vec<ResultContentBlock>)
    ensures
        text_blocks(r@, bash_texts(success, stdout@, stderr@)),
{
    let out_empty = stdout.as_str().is_empty();
    let err_empty = stderr.as_str().is_empty();
    let ghost out = stdout@;
    let ghost err = stderr@;
    let mut content: Vec<ResultContentBlock> = Vec::new();
    let ghost mut texts: Seq<Seq<char>> = seq![];
    if !success {
        if !err_empty {
            let mut t = owned("stderr:\n");
            t.append(stderr.as_str());
            proof { texts = texts.push(t@); }
            content.push(ResultContentBlock::Text { text: t });
        }
        if !out_empty {
            proof { texts = texts.push(out); }
            content.push(ResultContentBlock::Text { text: stdout.clone() });
        }
    } else if !out_empty {
        proof { texts = texts.push(out); }
        content.push(ResultContentBlock::Text { text: stdout.clone() });
    }
    if out_empty && !err_empty {
        proof { texts = texts.push(err); }
        content.push(ResultContentBlock::Text { text: stderr });
    }
    if content.len() == 0 {
        proof { texts = texts.push("(no output)"@); }
        content.push(ResultContentBlock::Text { text: owned("(no output)") });
    }
    assert(texts =~= bash_texts(success, out, err));
    content
}

impl Default for BashTool {
    fn default() -> (r: Self)
        ensures
            r.default_timeout() == 300,
    {
        BashTool::new()
    }
}

impl Tool for BashTool {
    open spec fn spec_name(&self) -> Seq<char> {
        "Bash"@
    }

    open spec fn spec_aliases(&self) -> Seq<Seq<char>> {
        seq!["bash"@, "shell"@, "exec"@]
    }

    open spec fn spec_description(&self) -> Seq<char> {
        "Execute a shell command in the terminal. Use this for running programs, git commands, npm scripts, and other shell operations."@
    }

    open spec fn spec_read_only(&self) -> bool {
        false
    }

    open spec fn spec_destructive(&self) -> bool {
        false
    }

    fn name(&self) -> (r: &str) {
        "Bash"
    }

    fn aliases(&self) -> (r: Vec<String>) {
        let r: Vec<String> = vec![owned("bash"), owned("shell"), owned("exec")];
        assert(views(r@) =~= seq!["bash"@, "shell"@, "exec"@]);
        r
    }

    fn description(&self) -> (r: String) {
        owned("Execute a shell command in the terminal. Use this for running programs, git commands, npm scripts, and other shell operations.")
    }

    fn is_read_only(&self) -> (r: bool)
        ensures
            !r,
    {
        false
    }

    fn is_destructive(&self) -> (r: bool)
        ensures
            !r,
    {
        false
    }
}

} // verus!
