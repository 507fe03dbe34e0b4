//! FileWrite tool: write content to a file, creating it when needed.

use vstd::prelude::*;
use crate::error::CliError;
use crate::text::{byte_len, decimal, owned, str_byte_len, u64_to_decimal, views};
use crate::types::tool::{text_blocks, ResultContentBlock, Tool, ToolMetrics, ToolResult};

verus! {

/// The arguments of a Write call.
pub struct WriteInput {
    pub path: String,
    pub content: String,
}

/// Writes files.
pub struct FileWriteTool;

impl FileWriteTool {
    pub fn new() -> (r: Self) {
        FileWriteTool
    }

    /// The error for a parent directory that could not be made.
    pub fn directory_error(&self, e: &str) -> (r: CliError)
        ensures
            r matches CliError::ToolExecution(m) && m@ == "cannot create directory: "@ + e@,
    {
        let mut m = owned("cannot create directory: ");
        m.append(e);
        CliError::ToolExecution(m)
    }

    /// The error for a file that could not be written.
    pub fn write_error(&self, e: &str) -> (r: CliError)
        ensures
            r matches CliError::ToolExecution(m) && m@ == "cannot write file: "@ + e@,
    {
        let mut m = owned("cannot write file: ");
        m.append(e);
        CliError::ToolExecution(m)
    }

    /// The result of a successful write: "File written: <path> (<n> bytes)".
    pub fn written(&self, input: &WriteInput, duration_ms: u64) -> (r: ToolResult)
        ensures
            !r.is_error,
            r.metrics == Some(ToolMetrics { duration_ms, tokens_used: None }),
            text_blocks(r.content@, seq!["File written: "@ + input.path@ + " ("@
                + decimal(byte_len(input.content@) as nat) + " bytes)"@]),
    {
        let mut t = owned("File written: ");
        t.append(input.path.as_str());
        t.append(" (");
        let n = u64_to_decimal(str_byte_len(input.content.as_str()) as u64);
        t.append(n.as_str());
        t.append(" bytes)");
        ToolResult {
            content: vec![ResultContentBlock::Text { text: t }],
            is_error: false,
            metrics: Some(ToolMetrics { duration_ms, tokens_used: None }),
        }
    }

    /// The line shown when the tool is used; `None` when the arguments did
    /// not parse.
    pub fn render_use_message(&self, input: Option<&WriteInput>) -> (r: String)
        ensures
            r@ == match input {
                Some(i) => "Writing "@ + decimal(byte_len(i.content@) as nat) + " bytes to: "@ + i.path@,
                None => "Writing file"@,
            },
    {
        match input {
            Some(i) => {
                let mut r = owned("Writing ");
                let n = u64_to_decimal(str_byte_len(i.content.as_str()) as u64);
                r.append(n.as_str());
                r.append(" bytes to: ");
                r.append(i.path.as_str());
                r
            },
            None => owned("Writing file"),
        }
    }
}

impl Default for FileWriteTool {
    fn default() -> (r: Self) {
        FileWriteTool::new()
    }
}

impl Tool for FileWriteTool {
    open spec fn spec_name(&self) -> Seq<char> {
        "Write"@
    }

    open spec fn spec_aliases(&self) -> Seq<Seq<char>> {
        seq!["write"@, "create"@, "new"@]
    }

    open spec fn spec_description(&self) -> Seq<char> {
        "Write content to a file, creating it if it doesn't exist."@
    }

    open spec fn spec_destructive(&self) -> bool {
        true
    }

    fn name(&self) -> (r: &str) {
        "Write"
    }

    fn aliases(&self) -> (r: Vec<String>) {
        let r: Vec<String> = vec![owned("write"), owned("create"), owned("new")];
        assert(views(r@) =~= seq!["write"@, "create"@, "new"@]);
        r
    }

    fn description(&self) -> (r: String) {
        owned("Write content to a file, creating it if it doesn't exist.")
    }

    fn is_destructive(&self) -> (r: bool)
        ensures
            r,
    {
        true
    }
}

} // verus!
