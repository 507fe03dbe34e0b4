//! ListMcpResources tool: list the resources of connected MCP servers.

use vstd::prelude::*;
use vstd::utf8::*;
use crate::error::CliError;
use crate::text::{owned, views};
use crate::types::tool::{text_blocks, Tool, ToolResult};

verus! {

/// The arguments of a ListMcpResources call.
pub struct ListMcpResourcesInput {
    /// The server to list resources from; all connected servers when
    /// absent.
    pub server: Option<String>,
}

/// Lists MCP resources.
pub struct ListMcpResourcesTool;

impl ListMcpResourcesTool {
    pub fn new() -> (r: Self) {
        ListMcpResourcesTool
    }

    /// Runs the tool on its parsed arguments, or on the parse error's text:
    /// "invalid input: <error>" for arguments that did not parse, else the
    /// note that a connected MCP server is needed. Both are failed results.
    pub fn call(&self, input: Result<&ListMcpResourcesInput, &str>) -> (r: Result<ToolResult, CliError>)
        ensures
            r matches Ok(res) && res.is_error && res.metrics is None && text_blocks(res.content@, seq![
                match input {
                    Err(e) => "invalid input: "@ + e@,
                    Ok(_) => "MCP resources require a connected MCP server."@,
                }
            ]),
    {
        match input {
            Err(e) => {
                let mut m = owned("invalid input: ");
                m.append(e);
                Ok(ToolResult::error(m))
            },
            Ok(_) => Ok(ToolResult::error(owned("MCP resources require a connected MCP server."))),
        }
    }

    /// The line shown when the tool is used; `None` when the arguments did
    /// not parse.
    pub fn render_use_message(&self, input: Option<&ListMcpResourcesInput>) -> (r: String)
        ensures
            r@ == match input {
                Some(i) => match i.server {
                    Some(s) => "Listing MCP resources from server: "@ + s@,
                    None => "Listing MCP resources from all servers"@,
                },
                None => "Listing MCP resources"@,
            },
    {
        match input {
            Some(i) => match &i.server {
                Some(s) => {
                    let mut r = owned("Listing MCP resources from server: ");
                    r.append(s.as_str());
                    r
                },
                None => owned("Listing MCP resources from all servers"),
            },
            None => owned("Listing MCP resources"),
        }
    }
}

impl Default for ListMcpResourcesTool {
    fn default() -> (r: Self) {
        ListMcpResourcesTool::new()
    }
}

impl Tool for ListMcpResourcesTool {
    open spec fn spec_name(&self) -> Seq<char> {
        "ListMcpResources"@
    }

    open spec fn spec_aliases(&self) -> Seq<Seq<char>> {
        seq![]
    }

    open spec fn spec_description(&self) -> Seq<char> {
        "List available resources exposed by a connected MCP server. MCP resources are typed content (files, configs, etc.) that servers make available for tools to read. Pass a server name to scope results, or omit it to list resources from all connected servers."@
    }

    open spec fn spec_read_only(&self) -> bool {
        true
    }

    fn name(&self) -> (r: &str) {
        "ListMcpResources"
    }

    fn aliases(&self) -> (r: Vec<String>) {
        let r: Vec<String> = Vec::new();
        assert(views(r@) =~= seq![]);
        r
    }

    fn description(&self) -> (r: String) {
        owned("List available resources exposed by a connected MCP server. MCP resources are typed content (files, configs, etc.) that servers make available for tools to read. Pass a server name to scope results, or omit it to list resources from all connected servers.")
    }

    fn is_read_only(&self) -> (r: bool)
        ensures
            r,
    {
        true
    }
}

} // verus!
