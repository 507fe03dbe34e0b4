//! SyntheticOutput tool: return structured output in a requested format.

use vstd::prelude::*;
use vstd::string::*;
use crate::error::CliError;
use crate::text::{cut_ok, owned, views};
use crate::types::tool::{cut_with, default_render_result_message, default_render_use_message, default_use_text,
    error_result, is_text_result, joined_previews, Tool, ToolResult};

verus! {

/// Return structured output in a requested format.
pub struct SyntheticOutputTool;

impl SyntheticOutputTool {
    pub fn new() -> (r: Self) {
        SyntheticOutputTool
    }

    /// Runs the tool: structured output needs the coordinator system.
    pub fn call(&self) -> (r: Result<ToolResult, CliError>)
        ensures
            r matches Ok(res) && is_text_result(res, "This tool requires the TUI/coordinator system."@, true),
    {
        Ok(error_result("This tool requires the TUI/coordinator system."))
    }

    /// The line shown when the tool is used, given its arguments as JSON
    /// text.
    pub fn render_use_message(&self, args_json: &str) -> (r: String)
        ensures
            r@ == default_use_text("SyntheticOutput"@, args_json@),
    {
        default_render_use_message("SyntheticOutput", args_json)
    }

    /// The previews of the result's blocks joined with "; ", cut after 200
    /// bytes.
    pub fn render_result_message(&self, result: &ToolResult) -> (r: String)
        requires
            cut_ok(joined_previews(result.content@), 200),
        ensures
            r@ == cut_with(joined_previews(result.content@), 200, "..."@),
    {
        default_render_result_message(result)
    }
}

impl Default for SyntheticOutputTool {
    fn default() -> (r: Self) {
        SyntheticOutputTool::new()
    }
}

impl Tool for SyntheticOutputTool {
    open spec fn spec_name(&self) -> Seq<char> {
        "SyntheticOutput"@
    }

    open spec fn spec_aliases(&self) -> Seq<Seq<char>> {
        seq![]
    }

    open spec fn spec_description(&self) -> Seq<char> {
        "Return structured output in the requested format."@
    }

    open spec fn spec_read_only(&self) -> bool {
        true
    }

    fn name(&self) -> (r: &str) {
        "SyntheticOutput"
    }

    fn aliases(&self) -> (r: Vec<String>) {
        let r: Vec<String> = Vec::new();
        assert(views(r@) =~= seq![]);
        r
    }

    fn description(&self) -> (r: String) {
        owned("Return structured output in the requested format.")
    }

    fn is_read_only(&self) -> (r: bool)
        ensures
            r,
    {
        true
    }
}

} // verus!
