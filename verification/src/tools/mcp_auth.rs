//! McpAuth tool: start the OAuth flow for an MCP server that requires authentication.

use vstd::prelude::*;
use vstd::string::*;
use crate::error::CliError;
use crate::text::{cut_ok, owned, views};
use crate::types::tool::{cut_with, default_render_result_message, error_result, is_text_result, joined_previews,
    Tool, ToolResult};

verus! {

/// Start the OAuth flow for an MCP server that requires authentication.
pub struct McpAuthTool;

impl McpAuthTool {
    pub fn new() -> (r: Self) {
        McpAuthTool
    }

    /// Runs the tool: the OAuth flow needs the interactive interface.
    pub fn call(&self) -> (r: Result<ToolResult, CliError>)
        ensures
            r matches Ok(res) && is_text_result(res, "MCP OAuth flow requires the TUI."@, true),
    {
        Ok(error_result("MCP OAuth flow requires the TUI."))
    }

    /// The line shown when the tool is used.
    pub fn render_use_message(&self) -> (r: String)
        ensures
            r@ == "Starting MCP OAuth authentication"@,
    {
        owned("Starting MCP OAuth authentication")
    }

    /// The previews of the result's blocks joined with "; ", cut after 200
    /// bytes.
    pub fn render_result_message(&self, result: &ToolResult) -> (r: String)
        requires
            cut_ok(joined_previews(result.content@), 200),
        ensures
            r@ == cut_with(joined_previews(result.content@), 200, "..."@),
    {
        default_render_result_message(result)
    }
}

impl Default for McpAuthTool {
    fn default() -> (r: Self) {
        McpAuthTool::new()
    }
}

impl Tool for McpAuthTool {
    open spec fn spec_name(&self) -> Seq<char> {
        "McpAuth"@
    }

    open spec fn spec_aliases(&self) -> Seq<Seq<char>> {
        seq![]
    }

    open spec fn spec_description(&self) -> Seq<char> {
        "Start the OAuth authentication flow for an MCP server that requires it. This will return an authorization URL to share with the user; once they complete the flow in their browser, the server's tools become available automatically."@
    }

    open spec fn spec_read_only(&self) -> bool {
        false
    }

    fn name(&self) -> (r: &str) {
        "McpAuth"
    }

    fn aliases(&self) -> (r: Vec<String>) {
        let r: Vec<String> = Vec::new();
        assert(views(r@) =~= seq![]);
        r
    }

    fn description(&self) -> (r: String) {
        owned("Start the OAuth authentication flow for an MCP server that requires it. This will return an authorization URL to share with the user; once they complete the flow in their browser, the server's tools become available automatically.")
    }

    fn is_read_only(&self) -> (r: bool)
        ensures
            !r,
    {
        false
    }
}

} // verus!
