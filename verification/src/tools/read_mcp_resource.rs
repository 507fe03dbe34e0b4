//! ReadMcpResource tool: read one resource of a connected MCP server.

use vstd::prelude::*;
use vstd::utf8::*;
use crate::error::CliError;
use crate::text::{owned, views};
use crate::types::tool::{text_blocks, Tool, ToolResult};

verus! {

/// The arguments of a ReadMcpResource call.
pub struct ReadMcpResourceInput {
    /// The server that owns the resource.
    pub server: String,
    /// The resource's URI.
    pub uri: String,
}

/// Reads MCP resources.
pub struct ReadMcpResourceTool;

impl ReadMcpResourceTool {
    pub fn new() -> (r: Self) {
        ReadMcpResourceTool
    }

    /// Runs the tool on its parsed arguments, or on the parse error's text:
    /// "invalid input: <error>" for arguments that did not parse, else the
    /// note that a connected MCP server is needed. Both are failed results.
    pub fn call(&self, input: Result<&ReadMcpResourceInput, &str>) -> (r: Result<ToolResult, CliError>)
        ensures
            r matches Ok(res) && res.is_error && res.metrics is None && text_blocks(res.content@, seq![
                match input {
                    Err(e) => "invalid input: "@ + e@,
                    Ok(_) => "MCP resources require a connected MCP server."@,
                }
            ]),
    {
        match input {
            Err(e) => {
                let mut m = owned("invalid input: ");
                m.append(e);
                Ok(ToolResult::error(m))
            },
            Ok(_) => Ok(ToolResult::error(owned("MCP resources require a connected MCP server."))),
        }
    }

    /// The line shown when the tool is used; `None` when the arguments did
    /// not parse.
    pub fn render_use_message(&self, input: Option<&ReadMcpResourceInput>) -> (r: String)
        ensures
            r@ == match input {
                Some(i) => "Reading MCP resource: "@ + i.uri@ + " from server: "@ + i.server@,
                None => "Reading MCP resource"@,
            },
    {
        match input {
            Some(i) => {
                let mut r = owned("Reading MCP resource: ");
                r.append(i.uri.as_str());
                r.append(" from server: ");
                r.append(i.server.as_str());
                r
            },
            None => owned("Reading MCP resource"),
        }
    }
}

impl Default for ReadMcpResourceTool {
    fn default() -> (r: Self) {
        ReadMcpResourceTool::new()
    }
}

impl Tool for ReadMcpResourceTool {
    open spec fn spec_name(&self) -> Seq<char> {
        "ReadMcpResource"@
    }

    open spec fn spec_aliases(&self) -> Seq<Seq<char>> {
        seq![]
    }

    open spec fn spec_description(&self) -> Seq<char> {
        "Read the content of a specific resource exposed by a connected MCP server. Use ListMcpResources first to discover available resources and their URIs."@
    }

    open spec fn spec_read_only(&self) -> bool {
        true
    }

    fn name(&self) -> (r: &str) {
        "ReadMcpResource"
    }

    fn aliases(&self) -> (r: Vec<String>) {
        let r: Vec<String> = Vec::new();
        assert(views(r@) =~= seq![]);
        r
    }

    fn description(&self) -> (r: String) {
        owned("Read the content of a specific resource exposed by a connected MCP server. Use ListMcpResources first to discover available resources and their URIs.")
    }

    fn is_read_only(&self) -> (r: bool)
        ensures
            r,
    {
        true
    }
}

} // verus!
