//! TaskGet tool: retrieve a task by id.

use vstd::prelude::*;
use vstd::string::*;
use crate::error::{is_other_err, CliError};
use crate::text::{cut_ok, owned, views};
use crate::types::tool::{cut_with, default_render_result_message, default_render_use_message, default_use_text,
    joined_previews, Tool, ToolResult};

verus! {

/// Retrieve a task by id.
pub struct TaskGetTool;

impl TaskGetTool {
    pub fn new() -> (r: Self) {
        TaskGetTool
    }

    /// Runs the tool: task management needs the coordinator system.
    pub fn call(&self) -> (r: Result<ToolResult, CliError>)
        ensures
            is_other_err(r, "Task management requires the coordinator system."@),
    {
        Err(CliError::Other(owned("Task management requires the coordinator system.")))
    }

    /// The line shown when the tool is used, given its arguments as JSON
    /// text.
    pub fn render_use_message(&self, args_json: &str) -> (r: String)
        ensures
            r@ == default_use_text("TaskGet"@, args_json@),
    {
        default_render_use_message("TaskGet", args_json)
    }

    /// The previews of the result's blocks joined with "; ", cut after 200
    /// bytes.
    pub fn render_result_message(&self, result: &ToolResult) -> (r: String)
        requires
            cut_ok(joined_previews(result.content@), 200),
        ensures
            r@ == cut_with(joined_previews(result.content@), 200, "..."@),
    {
        default_render_result_message(result)
    }
}

impl Default for TaskGetTool {
    fn default() -> (r: Self) {
        TaskGetTool::new()
    }
}

impl Tool for TaskGetTool {
    open spec fn spec_name(&self) -> Seq<char> {
        "TaskGet"@
    }

    open spec fn spec_aliases(&self) -> Seq<Seq<char>> {
        seq![]
    }

    open spec fn spec_description(&self) -> Seq<char> {
        "Retrieve a task by ID"@
    }

    fn name(&self) -> (r: &str) {
        "TaskGet"
    }

    fn aliases(&self) -> (r: Vec<String>) {
        let r: Vec<String> = Vec::new();
        assert(views(r@) =~= seq![]);
        r
    }

    fn description(&self) -> (r: String) {
        owned("Retrieve a task by ID")
    }
}

} // verus!
