//! TeamCreate tool: create a multi-agent swarm team.

use vstd::prelude::*;
use vstd::utf8::*;
use crate::error::CliError;
use crate::text::{owned, views};
use crate::types::tool::{error_result, is_text_result, Tool, ToolResult};

verus! {

/// The arguments of a TeamCreate call, told apart by their action.
pub enum TeamCreateInput {
    /// Create a new team.
    Create {
        /// The new team's name.
        team_name: String,
        /// What the team is for.
        description: Option<String>,
        /// The role of the team's lead.
        agent_type: Option<String>,
    },
}

/// Creates teams.
pub struct TeamCreateTool;

impl TeamCreateTool {
    pub fn new() -> (r: Self) {
        TeamCreateTool
    }

    /// Runs the tool: team creation needs the coordinator system.
    pub fn call(&self) -> (r: Result<ToolResult, CliError>)
        ensures
            r matches Ok(res) && is_text_result(res, "Team creation requires the coordinator system."@, true),
    {
        Ok(error_result("Team creation requires the coordinator system."))
    }

    /// The line shown when the tool is used, given the arguments'
    /// `team_name` when it is a string.
    pub fn render_use_message(&self, team_name: Option<&str>) -> (r: String)
        ensures
            r@ == match team_name {
                Some(n) => "Creating team: "@ + n@,
                None => "Creating a new team"@,
            },
    {
        match team_name {
            Some(n) => {
                let mut r = owned("Creating team: ");
                r.append(n);
                r
            },
            None => owned("Creating a new team"),
        }
    }
}

impl Default for TeamCreateTool {
    fn default() -> (r: Self) {
        TeamCreateTool::new()
    }
}

impl Tool for TeamCreateTool {
    open spec fn spec_name(&self) -> Seq<char> {
        "TeamCreate"@
    }

    open spec fn spec_aliases(&self) -> Seq<Seq<char>> {
        seq![]
    }

    open spec fn spec_description(&self) -> Seq<char> {
        "Create a new team for coordinating multiple agents. A leader can only manage one team at a time. Use TeamDelete to end the current team before creating a new one."@
    }

    open spec fn spec_read_only(&self) -> bool {
        false
    }

    fn name(&self) -> (r: &str) {
        "TeamCreate"
    }

    fn aliases(&self) -> (r: Vec<String>) {
        let r: Vec<String> = Vec::new();
        assert(views(r@) =~= seq![]);
        r
    }

    fn description(&self) -> (r: String) {
        owned("Create a new team for coordinating multiple agents. A leader can only manage one team at a time. Use TeamDelete to end the current team before creating a new one.")
    }

    fn is_read_only(&self) -> (r: bool)
        ensures
            !r,
    {
        false
    }
}

} // verus!
