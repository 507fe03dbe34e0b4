//! DiscoverSkills tool: a documentation and prompt-only stub.

use vstd::prelude::*;
use vstd::string::*;
use crate::error::CliError;
use crate::text::{cut_ok, owned, views};
use crate::types::tool::{cut_with, default_render_result_message, default_render_use_message, default_use_text,
    is_text_result, joined_previews, text_result, Tool, ToolResult};

verus! {

/// A documentation and prompt-only stub.
pub struct DiscoverSkillsTool;

impl DiscoverSkillsTool {
    pub fn new() -> (r: Self) {
        DiscoverSkillsTool
    }

    /// Runs the tool: it only documents itself.
    pub fn call(&self) -> (r: Result<ToolResult, CliError>)
        ensures
            r matches Ok(res) && is_text_result(res, "This is a documentation/prompt-only tool."@, false),
    {
        Ok(text_result("This is a documentation/prompt-only tool."))
    }

    /// The line shown when the tool is used, given its arguments as JSON
    /// text.
    pub fn render_use_message(&self, args_json: &str) -> (r: String)
        ensures
            r@ == default_use_text("DiscoverSkills"@, args_json@),
    {
        default_render_use_message("DiscoverSkills", args_json)
    }

    /// The previews of the result's blocks joined with "; ", cut after 200
    /// bytes.
    pub fn render_result_message(&self, result: &ToolResult) -> (r: String)
        requires
            cut_ok(joined_previews(result.content@), 200),
        ensures
            r@ == cut_with(joined_previews(result.content@), 200, "..."@),
    {
        default_render_result_message(result)
    }
}

impl Default for DiscoverSkillsTool {
    fn default() -> (r: Self) {
        DiscoverSkillsTool::new()
    }
}

impl Tool for DiscoverSkillsTool {
    open spec fn spec_name(&self) -> Seq<char> {
        "DiscoverSkills"@
    }

    open spec fn spec_aliases(&self) -> Seq<Seq<char>> {
        seq![]
    }

    open spec fn spec_description(&self) -> Seq<char> {
        "Discover available skills. This is a documentation/prompt-only tool."@
    }

    fn name(&self) -> (r: &str) {
        "DiscoverSkills"
    }

    fn aliases(&self) -> (r: Vec<String>) {
        let r: Vec<String> = Vec::new();
        assert(views(r@) =~= seq![]);
        r
    }

    fn description(&self) -> (r: String) {
        owned("Discover available skills. This is a documentation/prompt-only tool.")
    }
}

} // verus!
