//! NotebookEdit tool: edit the cells of a Jupyter notebook.

use vstd::prelude::*;
use vstd::utf8::*;
use crate::error::CliError;
use crate::text::{byte_len, byte_prefix, cut_ok, owned, prefix_bytes, str_byte_len, views};
use crate::types::tool::{Tool, ToolResult};

verus! {

/// `s` cut to at most `n` bytes.
pub open spec fn cut_to(s: Seq<char>, n: int) -> Seq<char> {
    if byte_len(s) > n {
        byte_prefix(s, n)
    } else {
        s
    }
}

/// The arguments of a NotebookEdit call.
pub struct NotebookEditInput {
    pub notebook_path: String,
    pub cell_id: Option<String>,
    pub new_source: String,
    pub cell_type: Option<String>,
    /// "replace", "insert" or "delete".
    pub edit_mode: String,
}

/// The edit mode of a call that names none: "replace".
pub fn default_edit_mode() -> (r: String)
    ensures
        r@ == "replace"@,
{
    owned("replace")
}

/// Edits notebook cells.
pub struct NotebookEditTool;

impl NotebookEditTool {
    pub fn new() -> (r: Self) {
        NotebookEditTool
    }

    /// Runs the tool on its parsed arguments, or on the parse error's text:
    /// the error "Invalid input: <error>" for arguments that did not parse,
    /// else the error saying the tool needs the interactive system.
    pub fn call(&self, input: Result<&NotebookEditInput, &str>) -> (r: Result<ToolResult, CliError>)
        ensures
            input matches Err(e) ==> r matches Err(CliError::ToolExecution(m)) && m@ == "Invalid input: "@ + e@,
            input matches Ok(i) ==> r matches Err(CliError::ToolExecution(m)) && m@ == "This tool requires the TUI/system integration."@,
    {
        match input {
            Err(e) => {
                let mut m = owned("Invalid input: ");
                m.append(e);
                Err(CliError::ToolExecution(m))
            },
            Ok(i) => {
                Err(CliError::ToolExecution(owned("This tool requires the TUI/system integration.")))
            },
        }
    }

    /// The line shown when the tool is used: the notebook, the mode and the
    /// new source cut after 60 bytes; `None` when the arguments did not
    /// parse. The cut must fall between characters.
    pub fn render_use_message(&self, input: Option<&NotebookEditInput>) -> (r: String)
        requires
            input matches Some(i) ==> cut_ok(i.new_source@, 60),
        ensures
            r@ == match input {
                Some(i) => "Editing notebook "@ + i.notebook_path@ + " (mode: "@ + i.edit_mode@ + "): "@
                    + cut_to(i.new_source@, 60),
                None => "Editing notebook cell"@,
            },
    {
        match input {
            Some(i) => {
                let mut r = owned("Editing notebook ");
                r.append(i.notebook_path.as_str());
                r.append(" (mode: ");
                r.append(i.edit_mode.as_str());
                r.append("): ");
                let src = i.new_source.as_str();
                r.append(if str_byte_len(src) > 60 { prefix_bytes(src, 60) } else { src });
                r
            },
            None => owned("Editing notebook cell"),
        }
    }

    /// A short line on how the tool's run ended.
    pub fn render_result_message(&self, result: &ToolResult) -> (r: String)
        ensures
            r@ == if result.is_error { "NotebookEdit failed."@ } else { "NotebookEdit completed."@ },
    {
        if result.is_error {
            owned("NotebookEdit failed.")
        } else {
            owned("NotebookEdit completed.")
        }
    }
}

impl Default for NotebookEditTool {
    fn default() -> (r: Self) {
        NotebookEditTool::new()
    }
}

impl Tool for NotebookEditTool {
    open spec fn spec_name(&self) -> Seq<char> {
        "NotebookEdit"@
    }

    open spec fn spec_aliases(&self) -> Seq<Seq<char>> {
        seq![]
    }

    open spec fn spec_description(&self) -> Seq<char> {
        "Edits a Jupyter notebook (.ipynb) cell: replace source, insert a new cell, or delete an existing cell. Validates that the notebook has been read before editing to prevent silent data loss."@
    }

    open spec fn spec_concurrency_safe(&self) -> bool {
        false
    }

    open spec fn spec_read_only(&self) -> bool {
        false
    }

    fn name(&self) -> (r: &str) {
        "NotebookEdit"
    }

    fn aliases(&self) -> (r: Vec<String>) {
        let r: Vec<String> = Vec::new();
        assert(views(r@) =~= seq![]);
        r
    }

    fn description(&self) -> (r: String) {
        owned("Edits a Jupyter notebook (.ipynb) cell: replace source, insert a new cell, or delete an existing cell. Validates that the notebook has been read before editing to prevent silent data loss.")
    }

    fn is_read_only(&self) -> (r: bool)
        ensures
            !r,
    {
        false
    }

    fn is_concurrency_safe(&self) -> (r: bool)
        ensures
            !r,
    {
        false
    }
}

} // verus!
