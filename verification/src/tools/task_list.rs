//! TaskList tool: list all tasks.

use vstd::prelude::*;
use vstd::string::*;
use crate::error::{is_other_err, CliError};
use crate::text::{cut_ok, owned, views};
use crate::types::tool::{cut_with, default_render_result_message, default_render_use_message, default_use_text,
    joined_previews, Tool, ToolResult};

verus! {

/// List all tasks.
pub struct TaskListTool;

impl TaskListTool {
    pub fn new() -> (r: Self) {
        TaskListTool
    }

    /// Runs the tool: task management needs the coordinator system.
    pub fn call(&self) -> (r: Result<ToolResult, CliError>)
        ensures
            is_other_err(r, "Task management requires the coordinator system."@),
    {
        Err(CliError::Other(owned("Task management requires the coordinator system.")))
    }

    /// The line shown when the tool is used, given its arguments as JSON
    /// text.
    pub fn render_use_message(&self, args_json: &str) -> (r: String)
        ensures
            r@ == default_use_text("TaskList"@, args_json@),
    {
        default_render_use_message("TaskList", args_json)
    }

    /// The previews of the result's blocks joined with "; ", cut after 200
    /// bytes.
    pub fn render_result_message(&self, result: &ToolResult) -> (r: String)
        requires
            cut_ok(joined_previews(result.content@), 200),
        ensures
            r@ == cut_with(joined_previews(result.content@), 200, "..."@),
    {
        default_render_result_message(result)
    }
}

impl Default for TaskListTool {
    fn default() -> (r: Self) {
        TaskListTool::new()
    }
}

impl Tool for TaskListTool {
    open spec fn spec_name(&self) -> Seq<char> {
        "TaskList"@
    }

    open spec fn spec_aliases(&self) -> Seq<Seq<char>> {
        seq![]
    }

    open spec fn spec_description(&self) -> Seq<char> {
        "List all tasks in the task list"@
    }

    fn name(&self) -> (r: &str) {
        "TaskList"
    }

    fn aliases(&self) -> (r: Vec<String>) {
        let r: Vec<String> = Vec::new();
        assert(views(r@) =~= seq![]);
        r
    }

    fn description(&self) -> (r: String) {
        owned("List all tasks in the task list")
    }
}

} // verus!
