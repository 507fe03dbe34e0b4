//! EnterPlanMode tool: switch to plan mode to design an approach before coding.

use vstd::prelude::*;
use vstd::string::*;
use crate::error::CliError;
use crate::text::{cut_ok, owned, views};
use crate::types::tool::{cut_with, default_render_result_message, error_result, is_text_result, joined_previews,
    Tool, ToolResult};

verus! {

/// Switch to plan mode to design an approach before coding.
pub struct EnterPlanModeTool;

impl EnterPlanModeTool {
    pub fn new() -> (r: Self) {
        EnterPlanModeTool
    }

    /// Runs the tool: plan mode is not available here.
    pub fn call(&self) -> (r: Result<ToolResult, CliError>)
        ensures
            r matches Ok(res) && is_text_result(res, "Plan mode is not available in this context. Use /plan to enter plan mode."@, true),
    {
        Ok(error_result("Plan mode is not available in this context. Use /plan to enter plan mode."))
    }

    /// The line shown when the tool is used.
    pub fn render_use_message(&self) -> (r: String)
        ensures
            r@ == "Entering plan mode"@,
    {
        owned("Entering plan mode")
    }

    /// The previews of the result's blocks joined with "; ", cut after 200
    /// bytes.
    pub fn render_result_message(&self, result: &ToolResult) -> (r: String)
        requires
            cut_ok(joined_previews(result.content@), 200),
        ensures
            r@ == cut_with(joined_previews(result.content@), 200, "..."@),
    {
        default_render_result_message(result)
    }
}

impl Default for EnterPlanModeTool {
    fn default() -> (r: Self) {
        EnterPlanModeTool::new()
    }
}

impl Tool for EnterPlanModeTool {
    open spec fn spec_name(&self) -> Seq<char> {
        "EnterPlanMode"@
    }

    open spec fn spec_aliases(&self) -> Seq<Seq<char>> {
        seq![]
    }

    open spec fn spec_description(&self) -> Seq<char> {
        "Requests permission to enter plan mode for complex tasks requiring exploration and design."@
    }

    open spec fn spec_concurrency_safe(&self) -> bool {
        true
    }

    open spec fn spec_read_only(&self) -> bool {
        true
    }

    fn name(&self) -> (r: &str) {
        "EnterPlanMode"
    }

    fn aliases(&self) -> (r: Vec<String>) {
        let r: Vec<String> = Vec::new();
        assert(views(r@) =~= seq![]);
        r
    }

    fn description(&self) -> (r: String) {
        owned("Requests permission to enter plan mode for complex tasks requiring exploration and design.")
    }

    fn is_read_only(&self) -> (r: bool)
        ensures
            r,
    {
        true
    }

    fn is_concurrency_safe(&self) -> (r: bool)
        ensures
            r,
    {
        true
    }
}

} // verus!
