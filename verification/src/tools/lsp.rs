//! LSP tool: code intelligence through a language server.

use vstd::prelude::*;
use vstd::utf8::*;
use crate::error::CliError;
use crate::text::{decimal, owned, u64_to_decimal, views};
use crate::types::tool::{Tool, ToolResult};

verus! {

/// The operations the tool accepts.
pub open spec fn lsp_operations() -> Seq<Seq<char>> {
    seq!["goToDefinition"@, "findReferences"@, "hover"@, "documentSymbol"@, "workspaceSymbol"@,
        "goToImplementation"@, "prepareCallHierarchy"@, "incomingCalls"@, "outgoingCalls"@]
}

/// The operations the tool accepts, in the order its schema lists them.
pub fn operations() -> (r: Vec<&'static str>)
    ensures
        r@.map_values(|s: &str| s@) == lsp_operations(),
{
    let r = vec!["goToDefinition", "findReferences", "hover", "documentSymbol", "workspaceSymbol",
        "goToImplementation", "prepareCallHierarchy", "incomingCalls", "outgoingCalls"];
    assert(r@.map_values(|s: &str| s@) =~= lsp_operations());
    r
}

/// The arguments of an LSP call.
pub struct LspInput {
    pub operation: String,
    pub file_path: String,
    pub line: u32,
    pub character: u32,
}

/// Queries a language server.
pub struct LspTool;

impl LspTool {
    pub fn new() -> (r: Self) {
        LspTool
    }

    /// Runs the tool on its parsed arguments, or on the parse error's text:
    /// the error "Invalid input: <error>" for arguments that did not parse,
    /// else the error saying the tool needs the interactive system.
    pub fn call(&self, input: Result<&LspInput, &str>) -> (r: Result<ToolResult, CliError>)
        ensures
            input matches Err(e) ==> r matches Err(CliError::ToolExecution(m)) && m@ == "Invalid input: "@ + e@,
            input matches Ok(i) ==> r matches Err(CliError::ToolExecution(m)) && m@ == "This tool requires the TUI/system integration."@,
    {
        match input {
            Err(e) => {
                let mut m = owned("Invalid input: ");
                m.append(e);
                Err(CliError::ToolExecution(m))
            },
            Ok(i) => {
                Err(CliError::ToolExecution(owned("This tool requires the TUI/system integration.")))
            },
        }
    }

    /// The line shown when the tool is used; `None` when the arguments did
    /// not parse.
    pub fn render_use_message(&self, input: Option<&LspInput>) -> (r: String)
        ensures
            r@ == match input {
                Some(i) => "LSP "@ + i.operation@ + " on "@ + i.file_path@ + ":"@ + decimal(i.line as nat)
                    + ":"@ + decimal(i.character as nat),
                None => "Running LSP operation"@,
            },
    {
        match input {
            Some(i) => {
                let mut r = owned("LSP ");
                r.append(i.operation.as_str());
                r.append(" on ");
                r.append(i.file_path.as_str());
                r.append(":");
                let l = u64_to_decimal(i.line as u64);
                r.append(l.as_str());
                r.append(":");
                let c = u64_to_decimal(i.character as u64);
                r.append(c.as_str());
                r
            },
            None => owned("Running LSP operation"),
        }
    }

    /// A short line on how the tool's run ended.
    pub fn render_result_message(&self, result: &ToolResult) -> (r: String)
        ensures
            r@ == if result.is_error { "LSP operation failed."@ } else { "LSP operation completed."@ },
    {
        if result.is_error {
            owned("LSP operation failed.")
        } else {
            owned("LSP operation completed.")
        }
    }
}

impl Default for LspTool {
    fn default() -> (r: Self) {
        LspTool::new()
    }
}

impl Tool for LspTool {
    open spec fn spec_name(&self) -> Seq<char> {
        "LSP"@
    }

    open spec fn spec_aliases(&self) -> Seq<Seq<char>> {
        seq![]
    }

    open spec fn spec_description(&self) -> Seq<char> {
        "Language Server Protocol code intelligence: go-to-definition, find-references, hover, document symbols, workspace symbols, go-to-implementation, and call hierarchy (incoming/outgoing calls). Requires an active LSP server for the file type."@
    }

    open spec fn spec_concurrency_safe(&self) -> bool {
        true
    }

    open spec fn spec_read_only(&self) -> bool {
        true
    }

    fn name(&self) -> (r: &str) {
        "LSP"
    }

    fn aliases(&self) -> (r: Vec<String>) {
        let r: Vec<String> = Vec::new();
        assert(views(r@) =~= seq![]);
        r
    }

    fn description(&self) -> (r: String) {
        owned("Language Server Protocol code intelligence: go-to-definition, find-references, hover, document symbols, workspace symbols, go-to-implementation, and call hierarchy (incoming/outgoing calls). Requires an active LSP server for the file type.")
    }

    fn is_read_only(&self) -> (r: bool)
        ensures
            r,
    {
        true
    }

    fn is_concurrency_safe(&self) -> (r: bool)
        ensures
            r,
    {
        true
    }
}

} // verus!
