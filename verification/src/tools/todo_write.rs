//! TodoWrite tool: update the session task checklist.

use vstd::prelude::*;
use vstd::string::*;
use crate::error::CliError;
use crate::text::{cut_ok, owned, views};
use crate::types::tool::{cut_with, default_render_result_message, default_render_use_message, default_use_text,
    error_result, is_text_result, joined_previews, Tool, ToolResult};

verus! {

/// Update the session task checklist.
pub struct TodoWriteTool;

impl TodoWriteTool {
    pub fn new() -> (r: Self) {
        TodoWriteTool
    }

    /// Runs the tool: the checklist needs the coordinator system.
    pub fn call(&self) -> (r: Result<ToolResult, CliError>)
        ensures
            r matches Ok(res) && is_text_result(res, "This tool requires the TUI/coordinator system."@, true),
    {
        Ok(error_result("This tool requires the TUI/coordinator system."))
    }

    /// The line shown when the tool is used, given its arguments as JSON
    /// text.
    pub fn render_use_message(&self, args_json: &str) -> (r: String)
        ensures
            r@ == default_use_text("TodoWrite"@, args_json@),
    {
        default_render_use_message("TodoWrite", args_json)
    }

    /// The previews of the result's blocks joined with "; ", cut after 200
    /// bytes.
    pub fn render_result_message(&self, result: &ToolResult) -> (r: String)
        requires
            cut_ok(joined_previews(result.content@), 200),
        ensures
            r@ == cut_with(joined_previews(result.content@), 200, "..."@),
    {
        default_render_result_message(result)
    }
}

impl Default for TodoWriteTool {
    fn default() -> (r: Self) {
        TodoWriteTool::new()
    }
}

impl Tool for TodoWriteTool {
    open spec fn spec_name(&self) -> Seq<char> {
        "TodoWrite"@
    }

    open spec fn spec_aliases(&self) -> Seq<Seq<char>> {
        seq![]
    }

    open spec fn spec_description(&self) -> Seq<char> {
        "Manage the session task checklist."@
    }

    open spec fn spec_read_only(&self) -> bool {
        false
    }

    fn name(&self) -> (r: &str) {
        "TodoWrite"
    }

    fn aliases(&self) -> (r: Vec<String>) {
        let r: Vec<String> = Vec::new();
        assert(views(r@) =~= seq![]);
        r
    }

    fn description(&self) -> (r: String) {
        owned("Manage the session task checklist.")
    }

    fn is_read_only(&self) -> (r: bool)
        ensures
            !r,
    {
        false
    }
}

} // verus!
