//! Tungsten tool: a stub for the heavy-duty task execution engine.

use vstd::prelude::*;
use vstd::string::*;
use crate::error::CliError;
use crate::text::{cut_ok, owned, views};
use crate::types::tool::{cut_with, default_render_result_message, error_result, is_text_result, joined_previews,
    Tool, ToolResult};

verus! {

/// A stub for the heavy-duty task execution engine.
pub struct TungstenTool;

impl TungstenTool {
    pub fn new() -> (r: Self) {
        TungstenTool
    }

    /// Runs the tool: the engine needs the coordinator system.
    pub fn call(&self) -> (r: Result<ToolResult, CliError>)
        ensures
            r matches Ok(res) && is_text_result(res, "This tool requires the TUI/coordinator system."@, true),
    {
        Ok(error_result("This tool requires the TUI/coordinator system."))
    }

    /// The line shown when the tool is used.
    pub fn render_use_message(&self) -> (r: String)
        ensures
            r@ == "Running Tungsten tool"@,
    {
        owned("Running Tungsten tool")
    }

    /// The previews of the result's blocks joined with "; ", cut after 200
    /// bytes.
    pub fn render_result_message(&self, result: &ToolResult) -> (r: String)
        requires
            cut_ok(joined_previews(result.content@), 200),
        ensures
            r@ == cut_with(joined_previews(result.content@), 200, "..."@),
    {
        default_render_result_message(result)
    }
}

impl Default for TungstenTool {
    fn default() -> (r: Self) {
        TungstenTool::new()
    }
}

impl Tool for TungstenTool {
    open spec fn spec_name(&self) -> Seq<char> {
        "Tungsten"@
    }

    open spec fn spec_aliases(&self) -> Seq<Seq<char>> {
        seq![]
    }

    open spec fn spec_description(&self) -> Seq<char> {
        "Tungsten heavy-duty task execution engine."@
    }

    open spec fn spec_concurrency_safe(&self) -> bool {
        true
    }

    open spec fn spec_read_only(&self) -> bool {
        true
    }

    fn name(&self) -> (r: &str) {
        "Tungsten"
    }

    fn aliases(&self) -> (r: Vec<String>) {
        let r: Vec<String> = Vec::new();
        assert(views(r@) =~= seq![]);
        r
    }

    fn description(&self) -> (r: String) {
        owned("Tungsten heavy-duty task execution engine.")
    }

    fn is_read_only(&self) -> (r: bool)
        ensures
            r,
    {
        true
    }

    fn is_concurrency_safe(&self) -> (r: bool)
        ensures
            r,
    {
        true
    }
}

} // verus!
