//! REPL tool: run commands in a persistent read-eval-print session.

use vstd::prelude::*;
use vstd::utf8::*;
use crate::error::CliError;
use crate::text::{byte_len, byte_prefix, cut_ok, owned, prefix_bytes, str_byte_len, views};
use crate::types::tool::{Tool, ToolResult};

verus! {

/// `s` cut to at most `n` bytes.
pub open spec fn cut_to(s: Seq<char>, n: int) -> Seq<char> {
    if byte_len(s) > n {
        byte_prefix(s, n)
    } else {
        s
    }
}

/// The arguments of a REPL call.
pub struct ReplInput {
    pub command: String,
    /// The language or session to use.
    pub context: Option<String>,
}

/// Runs REPL commands.
pub struct ReplTool;

impl ReplTool {
    pub fn new() -> (r: Self) {
        ReplTool
    }

    /// Runs the tool on its parsed arguments, or on the parse error's text:
    /// the error "Invalid input: <error>" for arguments that did not parse,
    /// else the error saying the tool needs the interactive system.
    pub fn call(&self, input: Result<&ReplInput, &str>) -> (r: Result<ToolResult, CliError>)
        ensures
            input matches Err(e) ==> r matches Err(CliError::ToolExecution(m)) && m@ == "Invalid input: "@ + e@,
            input matches Ok(i) ==> r matches Err(CliError::ToolExecution(m)) && m@ == "This tool requires the TUI/system integration."@,
    {
        match input {
            Err(e) => {
                let mut m = owned("Invalid input: ");
                m.append(e);
                Err(CliError::ToolExecution(m))
            },
            Ok(i) => {
                Err(CliError::ToolExecution(owned("This tool requires the TUI/system integration.")))
            },
        }
    }

    /// The line shown when the tool is used: the session ("default" when
    /// none is named) and the command cut after 60 bytes; `None` when the
    /// arguments did not parse. The cut must fall between characters.
    pub fn render_use_message(&self, input: Option<&ReplInput>) -> (r: String)
        requires
            input matches Some(i) ==> cut_ok(i.command@, 60),
        ensures
            r@ == match input {
                Some(i) => "REPL ["@ + (match i.context {
                    Some(c) => c@,
                    None => "default"@,
                }) + "]: "@ + cut_to(i.command@, 60),
                None => "Running REPL command"@,
            },
    {
        match input {
            Some(i) => {
                let mut r = owned("REPL [");
                match &i.context {
                    Some(c) => r.append(c.as_str()),
                    None => r.append("default"),
                }
                r.append("]: ");
                let cmd = i.command.as_str();
                r.append(if str_byte_len(cmd) > 60 { prefix_bytes(cmd, 60) } else { cmd });
                r
            },
            None => owned("Running REPL command"),
        }
    }

    /// A short line on how the tool's run ended.
    pub fn render_result_message(&self, result: &ToolResult) -> (r: String)
        ensures
            r@ == if result.is_error { "REPL command failed."@ } else { "REPL command completed."@ },
    {
        if result.is_error {
            owned("REPL command failed.")
        } else {
            owned("REPL command completed.")
        }
    }
}

impl Default for ReplTool {
    fn default() -> (r: Self) {
        ReplTool::new()
    }
}

impl Tool for ReplTool {
    open spec fn spec_name(&self) -> Seq<char> {
        "REPL"@
    }

    open spec fn spec_aliases(&self) -> Seq<Seq<char>> {
        seq![]
    }

    open spec fn spec_description(&self) -> Seq<char> {
        "Executes a command in a persistent REPL (Read-Eval-Print-Loop) session. Maintains state between calls within the same session. Use the context field to select or create a language-specific REPL session."@
    }

    open spec fn spec_concurrency_safe(&self) -> bool {
        false
    }

    open spec fn spec_read_only(&self) -> bool {
        false
    }

    fn name(&self) -> (r: &str) {
        "REPL"
    }

    fn aliases(&self) -> (r: Vec<String>) {
        let r: Vec<String> = Vec::new();
        assert(views(r@) =~= seq![]);
        r
    }

    fn description(&self) -> (r: String) {
        owned("Executes a command in a persistent REPL (Read-Eval-Print-Loop) session. Maintains state between calls within the same session. Use the context field to select or create a language-specific REPL session.")
    }

    fn is_read_only(&self) -> (r: bool)
        ensures
            !r,
    {
        false
    }

    fn is_concurrency_safe(&self) -> (r: bool)
        ensures
            !r,
    {
        false
    }
}

} // verus!
