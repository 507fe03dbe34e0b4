//! PowerShell tool: run PowerShell commands on Windows.

use vstd::prelude::*;
use vstd::utf8::*;
use crate::error::CliError;
use crate::text::{byte_len, byte_prefix, cut_ok, decimal, owned, prefix_bytes, str_byte_len, u64_to_decimal,
    views};
use crate::types::tool::{Tool, ToolResult};

verus! {

/// The longest timeout a call may ask for, in milliseconds (ten minutes).
pub const MAX_TIMEOUT_MS: u64 = 600_000;

/// What a PowerShell call on parsed arguments answers: a timeout over the
/// maximum is refused with "Timeout <t>ms exceeds maximum allowed
/// <max>ms"; any other call gets the error saying the tool needs the
/// interactive system.
pub open spec fn powershell_reply(i: PowerShellInput, r: Result<ToolResult, CliError>) -> bool {
    match i.timeout {
        Some(t) => if t > MAX_TIMEOUT_MS {
            r matches Err(CliError::ToolExecution(m)) && m@ == "Timeout "@ + decimal(t as nat)
                + "ms exceeds maximum allowed "@ + decimal(MAX_TIMEOUT_MS as nat) + "ms"@
        } else {
            r matches Err(CliError::ToolExecution(m)) && m@ == "This tool requires the TUI/system integration."@
        },
        None => r matches Err(CliError::ToolExecution(m)) && m@ == "This tool requires the TUI/system integration."@,
    }
}

/// The arguments of a PowerShell call.
pub struct PowerShellInput {
    pub command: String,
    /// The timeout in milliseconds.
    pub timeout: Option<u64>,
    pub description: Option<String>,
    pub run_in_background: Option<bool>,
    pub dangerously_disable_sandbox: Option<bool>,
}

/// Runs PowerShell commands.
pub struct PowerShellTool;

impl PowerShellTool {
    pub fn new() -> (r: Self) {
        PowerShellTool
    }

    /// Runs the tool on its parsed arguments, or on the parse error's text:
    /// the error "Invalid input: <error>" for arguments that did not parse,
    /// else the error saying the tool needs the interactive system. A timeout over the maximum is refused first.
    pub fn call(&self, input: Result<&PowerShellInput, &str>) -> (r: Result<ToolResult, CliError>)
        ensures
            input matches Err(e) ==> r matches Err(CliError::ToolExecution(m)) && m@ == "Invalid input: "@ + e@,
            input matches Ok(i) ==> powershell_reply(*i, r),
    {
        match input {
            Err(e) => {
                let mut m = owned("Invalid input: ");
                m.append(e);
                Err(CliError::ToolExecution(m))
            },
            Ok(i) => {
                match i.timeout {
                    Some(t) => {
                        if t > MAX_TIMEOUT_MS {
                            let mut m = owned("Timeout ");
                            let d = u64_to_decimal(t);
                            m.append(d.as_str());
                            m.append("ms exceeds maximum allowed ");
                            let x = u64_to_decimal(MAX_TIMEOUT_MS);
                            m.append(x.as_str());
                            m.append("ms");
                            return Err(CliError::ToolExecution(m));
                        }
                    },
                    None => {},
                }
                Err(CliError::ToolExecution(owned("This tool requires the TUI/system integration.")))
            },
        }
    }

    /// The line shown when the tool is used: "PowerShell", the description
    /// in brackets when there is one, and the command cut after 60 bytes
    /// with "..." appended; `None` when the arguments did not parse. The cut
    /// must fall between characters.
    pub fn render_use_message(&self, input: Option<&PowerShellInput>) -> (r: String)
        requires
            input matches Some(i) ==> cut_ok(i.command@, 60),
        ensures
            r@ == match input {
                Some(i) => "PowerShell"@ + (match i.description {
                    Some(d) => " ("@ + d@ + ")"@,
                    None => seq![],
                }) + ": "@ + (if byte_len(i.command@) > 60 {
                    byte_prefix(i.command@, 60) + "..."@
                } else {
                    i.command@
                }),
                None => "Running PowerShell command"@,
            },
    {
        match input {
            Some(i) => {
                let mut r = owned("PowerShell");
                match &i.description {
                    Some(d) => {
                        r.append(" (");
                        r.append(d.as_str());
                        r.append(")");
                    },
                    None => {},
                }
                r.append(": ");
                let cmd = i.command.as_str();
                if str_byte_len(cmd) > 60 {
                    r.append(prefix_bytes(cmd, 60));
                    r.append("...");
                } else {
                    r.append(cmd);
                }
                r
            },
            None => owned("Running PowerShell command"),
        }
    }

    /// A short line on how the tool's run ended.
    pub fn render_result_message(&self, result: &ToolResult) -> (r: String)
        ensures
            r@ == if result.is_error { "PowerShell command failed."@ } else { "PowerShell command completed."@ },
    {
        if result.is_error {
            owned("PowerShell command failed.")
        } else {
            owned("PowerShell command completed.")
        }
    }
}

impl Default for PowerShellTool {
    fn default() -> (r: Self) {
        PowerShellTool::new()
    }
}

impl Tool for PowerShellTool {
    open spec fn spec_name(&self) -> Seq<char> {
        "PowerShell"@
    }

    open spec fn spec_aliases(&self) -> Seq<Seq<char>> {
        seq![]
    }

    open spec fn spec_description(&self) -> Seq<char> {
        "Executes PowerShell commands on Windows. Supports sandboxed execution, background tasks, permission checks, image output detection, and large output persistence. Use the description field to explain what the command does in active voice."@
    }

    open spec fn spec_concurrency_safe(&self) -> bool {
        false
    }

    open spec fn spec_read_only(&self) -> bool {
        false
    }

    fn name(&self) -> (r: &str) {
        "PowerShell"
    }

    fn aliases(&self) -> (r: Vec<String>) {
        let r: Vec<String> = Vec::new();
        assert(views(r@) =~= seq![]);
        r
    }

    fn description(&self) -> (r: String) {
        owned("Executes PowerShell commands on Windows. Supports sandboxed execution, background tasks, permission checks, image output detection, and large output persistence. Use the description field to explain what the command does in active voice.")
    }

    fn is_read_only(&self) -> (r: bool)
        ensures
            !r,
    {
        false
    }

    fn is_concurrency_safe(&self) -> (r: bool)
        ensures
            !r,
    {
        false
    }
}

} // verus!
