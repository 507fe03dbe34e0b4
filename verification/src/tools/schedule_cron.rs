//! ScheduleCron tool: create, delete and list scheduled cron tasks.

use vstd::prelude::*;
use vstd::string::*;
use crate::error::CliError;
use crate::text::{cut_ok, owned, views};
use crate::types::tool::{cut_with, default_render_result_message, default_render_use_message, default_use_text,
    error_result, is_text_result, joined_previews, Tool, ToolResult};

verus! {

/// Create, delete and list scheduled cron tasks.
pub struct ScheduleCronTool;

impl ScheduleCronTool {
    pub fn new() -> (r: Self) {
        ScheduleCronTool
    }

    /// Runs the tool: scheduling needs the coordinator system.
    pub fn call(&self) -> (r: Result<ToolResult, CliError>)
        ensures
            r matches Ok(res) && is_text_result(res, "This tool requires the TUI/coordinator system."@, true),
    {
        Ok(error_result("This tool requires the TUI/coordinator system."))
    }

    /// The line shown when the tool is used, given its arguments as JSON
    /// text.
    pub fn render_use_message(&self, args_json: &str) -> (r: String)
        ensures
            r@ == default_use_text("CronCreate"@, args_json@),
    {
        default_render_use_message("CronCreate", args_json)
    }

    /// The previews of the result's blocks joined with "; ", cut after 200
    /// bytes.
    pub fn render_result_message(&self, result: &ToolResult) -> (r: String)
        requires
            cut_ok(joined_previews(result.content@), 200),
        ensures
            r@ == cut_with(joined_previews(result.content@), 200, "..."@),
    {
        default_render_result_message(result)
    }
}

impl Default for ScheduleCronTool {
    fn default() -> (r: Self) {
        ScheduleCronTool::new()
    }
}

impl Tool for ScheduleCronTool {
    open spec fn spec_name(&self) -> Seq<char> {
        "CronCreate"@
    }

    open spec fn spec_aliases(&self) -> Seq<Seq<char>> {
        seq!["CronDelete"@, "CronList"@]
    }

    open spec fn spec_description(&self) -> Seq<char> {
        "Schedule, delete, or list cron tasks."@
    }

    open spec fn spec_read_only(&self) -> bool {
        false
    }

    fn name(&self) -> (r: &str) {
        "CronCreate"
    }

    fn aliases(&self) -> (r: Vec<String>) {
        let r: Vec<String> = vec![owned("CronDelete"), owned("CronList")];
        assert(views(r@) =~= seq!["CronDelete"@, "CronList"@]);
        r
    }

    fn description(&self) -> (r: String) {
        owned("Schedule, delete, or list cron tasks.")
    }

    fn is_read_only(&self) -> (r: bool)
        ensures
            !r,
    {
        false
    }
}

} // verus!
