//! Sleep tool: pause execution for a specified duration.

use vstd::prelude::*;
use vstd::string::*;
use crate::error::CliError;
use crate::text::{cut_ok, owned, views};
use crate::types::tool::{cut_with, default_render_result_message, default_render_use_message, default_use_text,
    error_result, is_text_result, joined_previews, Tool, ToolResult};

verus! {

/// Pause execution for a specified duration.
pub struct SleepTool;

impl SleepTool {
    pub fn new() -> (r: Self) {
        SleepTool
    }

    /// Runs the tool: sleeping needs the coordinator system.
    pub fn call(&self) -> (r: Result<ToolResult, CliError>)
        ensures
            r matches Ok(res) && is_text_result(res, "This tool requires the TUI/coordinator system."@, true),
    {
        Ok(error_result("This tool requires the TUI/coordinator system."))
    }

    /// The line shown when the tool is used, given its arguments as JSON
    /// text.
    pub fn render_use_message(&self, args_json: &str) -> (r: String)
        ensures
            r@ == default_use_text("Sleep"@, args_json@),
    {
        default_render_use_message("Sleep", args_json)
    }

    /// The previews of the result's blocks joined with "; ", cut after 200
    /// bytes.
    pub fn render_result_message(&self, result: &ToolResult) -> (r: String)
        requires
            cut_ok(joined_previews(result.content@), 200),
        ensures
            r@ == cut_with(joined_previews(result.content@), 200, "..."@),
    {
        default_render_result_message(result)
    }
}

impl Default for SleepTool {
    fn default() -> (r: Self) {
        SleepTool::new()
    }
}

impl Tool for SleepTool {
    open spec fn spec_name(&self) -> Seq<char> {
        "Sleep"@
    }

    open spec fn spec_aliases(&self) -> Seq<Seq<char>> {
        seq![]
    }

    open spec fn spec_description(&self) -> Seq<char> {
        "Pause execution for a specified duration."@
    }

    open spec fn spec_read_only(&self) -> bool {
        true
    }

    fn name(&self) -> (r: &str) {
        "Sleep"
    }

    fn aliases(&self) -> (r: Vec<String>) {
        let r: Vec<String> = Vec::new();
        assert(views(r@) =~= seq![]);
        r
    }

    fn description(&self) -> (r: String) {
        owned("Pause execution for a specified duration.")
    }

    fn is_read_only(&self) -> (r: bool)
        ensures
            r,
    {
        true
    }
}

} // verus!
