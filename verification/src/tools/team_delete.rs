//! TeamDelete tool: disband a swarm team and clean up.

use vstd::prelude::*;
use vstd::string::*;
use crate::error::CliError;
use crate::text::{cut_ok, owned, views};
use crate::types::tool::{cut_with, default_render_result_message, error_result, is_text_result, joined_previews,
    Tool, ToolResult};

verus! {

/// Disband a swarm team and clean up.
pub struct TeamDeleteTool;

impl TeamDeleteTool {
    pub fn new() -> (r: Self) {
        TeamDeleteTool
    }

    /// Runs the tool: team management needs the coordinator system.
    pub fn call(&self) -> (r: Result<ToolResult, CliError>)
        ensures
            r matches Ok(res) && is_text_result(res, "Team deletion requires the coordinator system."@, true),
    {
        Ok(error_result("Team deletion requires the coordinator system."))
    }

    /// The line shown when the tool is used.
    pub fn render_use_message(&self) -> (r: String)
        ensures
            r@ == "Cleaning up team"@,
    {
        owned("Cleaning up team")
    }

    /// The previews of the result's blocks joined with "; ", cut after 200
    /// bytes.
    pub fn render_result_message(&self, result: &ToolResult) -> (r: String)
        requires
            cut_ok(joined_previews(result.content@), 200),
        ensures
            r@ == cut_with(joined_previews(result.content@), 200, "..."@),
    {
        default_render_result_message(result)
    }
}

impl Default for TeamDeleteTool {
    fn default() -> (r: Self) {
        TeamDeleteTool::new()
    }
}

impl Tool for TeamDeleteTool {
    open spec fn spec_name(&self) -> Seq<char> {
        "TeamDelete"@
    }

    open spec fn spec_aliases(&self) -> Seq<Seq<char>> {
        seq![]
    }

    open spec fn spec_description(&self) -> Seq<char> {
        "Clean up team and task directories when the swarm is complete. Fails if any teammates are still active — use requestShutdown to terminate them first."@
    }

    open spec fn spec_read_only(&self) -> bool {
        false
    }

    fn name(&self) -> (r: &str) {
        "TeamDelete"
    }

    fn aliases(&self) -> (r: Vec<String>) {
        let r: Vec<String> = Vec::new();
        assert(views(r@) =~= seq![]);
        r
    }

    fn description(&self) -> (r: String) {
        owned("Clean up team and task directories when the swarm is complete. Fails if any teammates are still active — use requestShutdown to terminate them first.")
    }

    fn is_read_only(&self) -> (r: bool)
        ensures
            !r,
    {
        false
    }
}

} // verus!
