//! ExitWorktree tool: leaves the current worktree and returns to the
//! original session directory.

use vstd::prelude::*;
use crate::error::CliError;
use crate::text::{owned, views};
use crate::types::tool::{error_result, is_text_result, Tool, ToolResult};

verus! {

/// Leaves the current worktree.
pub struct ExitWorktreeTool;

impl ExitWorktreeTool {
    pub fn new() -> (r: Self) {
        ExitWorktreeTool
    }

    /// Runs the tool: worktree operations are not available here.
    pub fn call(&self) -> (r: Result<ToolResult, CliError>)
        ensures
            r matches Ok(res) && is_text_result(
                res,
                "Worktree operations are not available in this context."@,
                true,
            ),
    {
        Ok(error_result("Worktree operations are not available in this context."))
    }

    /// The line shown when the tool is used.
    pub fn render_use_message(&self) -> (r: String)
        ensures
            r@ == "Leaving worktree"@,
    {
        owned("Leaving worktree")
    }
}

impl Default for ExitWorktreeTool {
    fn default() -> (r: Self) {
        ExitWorktreeTool::new()
    }
}

impl Tool for ExitWorktreeTool {
    open spec fn spec_name(&self) -> Seq<char> {
        "ExitWorktree"@
    }

    open spec fn spec_aliases(&self) -> Seq<Seq<char>> {
        seq![]
    }

    open spec fn spec_description(&self) -> Seq<char> {
        "Leaves the current worktree and returns the session to its original working directory."@
    }

    open spec fn spec_read_only(&self) -> bool {
        false
    }

    fn name(&self) -> (r: &str) {
        "ExitWorktree"
    }

    fn aliases(&self) -> (r: Vec<String>) {
        let r: Vec<String> = Vec::new();
        assert(views(r@) =~= seq![]);
        r
    }

    fn description(&self) -> (r: String) {
        owned("Leaves the current worktree and returns the session to its original working directory.")
    }

    fn is_read_only(&self) -> (r: bool)
        ensures
            !r,
    {
        false
    }
}

} // verus!
