//! TaskCreate tool: create a task in the task list.

use vstd::prelude::*;
use vstd::string::*;
use crate::error::{is_other_err, CliError};
use crate::text::{cut_ok, owned, views};
use crate::types::tool::{cut_with, default_render_result_message, default_render_use_message, default_use_text,
    joined_previews, Tool, ToolResult};

verus! {

/// Create a task in the task list.
pub struct TaskCreateTool;

impl TaskCreateTool {
    pub fn new() -> (r: Self) {
        TaskCreateTool
    }

    /// Runs the tool: task management needs the coordinator system.
    pub fn call(&self) -> (r: Result<ToolResult, CliError>)
        ensures
            is_other_err(r, "Task management requires the coordinator system."@),
    {
        Err(CliError::Other(owned("Task management requires the coordinator system.")))
    }

    /// The line shown when the tool is used, given its arguments as JSON
    /// text.
    pub fn render_use_message(&self, args_json: &str) -> (r: String)
        ensures
            r@ == default_use_text("TaskCreate"@, args_json@),
    {
        default_render_use_message("TaskCreate", args_json)
    }

    /// The previews of the result's blocks joined with "; ", cut after 200
    /// bytes.
    pub fn render_result_message(&self, result: &ToolResult) -> (r: String)
        requires
            cut_ok(joined_previews(result.content@), 200),
        ensures
            r@ == cut_with(joined_previews(result.content@), 200, "..."@),
    {
        default_render_result_message(result)
    }
}

impl Default for TaskCreateTool {
    fn default() -> (r: Self) {
        TaskCreateTool::new()
    }
}

impl Tool for TaskCreateTool {
    open spec fn spec_name(&self) -> Seq<char> {
        "TaskCreate"@
    }

    open spec fn spec_aliases(&self) -> Seq<Seq<char>> {
        seq![]
    }

    open spec fn spec_description(&self) -> Seq<char> {
        "Create a task in the task list"@
    }

    fn name(&self) -> (r: &str) {
        "TaskCreate"
    }

    fn aliases(&self) -> (r: Vec<String>) {
        let r: Vec<String> = Vec::new();
        assert(views(r@) =~= seq![]);
        r
    }

    fn description(&self) -> (r: String) {
        owned("Create a task in the task list")
    }
}

} // verus!
