//! RemoteTrigger tool: manage scheduled remote agent triggers.

use vstd::prelude::*;
use vstd::utf8::*;
use crate::error::CliError;
use crate::text::{owned, views};
use crate::types::tool::{Tool, ToolResult};

use crate::text::str_eq;

verus! {

/// The actions the tool accepts.
pub open spec fn trigger_actions() -> Seq<Seq<char>> {
    seq!["list"@, "get"@, "create"@, "update"@, "run"@]
}

/// The actions the tool accepts, in the order its schema lists them.
pub fn actions() -> (r: Vec<&'static str>)
    ensures
        r@.map_values(|s: &str| s@) == trigger_actions(),
{
    let r = vec!["list", "get", "create", "update", "run"];
    assert(r@.map_values(|s: &str| s@) =~= trigger_actions());
    r
}

/// The arguments of a RemoteTrigger call.
pub struct RemoteTriggerInput {
    pub action: String,
    pub trigger_id: Option<String>,
    pub body: Option<serde_json::Value>,
}

/// What the tool shows for an action and trigger id.
pub open spec fn trigger_use_text(action: Seq<char>, id: Option<Seq<char>>) -> Seq<char> {
    if action == "list"@ {
        "Listing remote triggers"@
    } else if action == "get"@ && id is Some {
        "Getting remote trigger: "@ + id->Some_0
    } else if action == "create"@ {
        "Creating remote trigger"@
    } else if action == "update"@ && id is Some {
        "Updating remote trigger: "@ + id->Some_0
    } else if action == "run"@ && id is Some {
        "Running remote trigger: "@ + id->Some_0
    } else {
        "RemoteTrigger action: "@ + action
    }
}

/// Manages remote triggers.
pub struct RemoteTriggerTool {
    /// The site whose account the triggers belong to.
    pub account_site: String,
}

impl RemoteTriggerTool {
    /// A tool for triggers held by accounts of `account_site`.
    pub fn new(account_site: String) -> (r: Self)
        ensures
            r.account_site == account_site,
    {
        RemoteTriggerTool { account_site }
    }

    /// Runs the tool on its parsed arguments, or on the parse error's text:
    /// the error "Invalid input: <error>" for arguments that did not parse,
    /// else the error saying the tool needs the interactive system.
    pub fn call(&self, input: Result<&RemoteTriggerInput, &str>) -> (r: Result<ToolResult, CliError>)
        ensures
            input matches Err(e) ==> r matches Err(CliError::ToolExecution(m)) && m@ == "Invalid input: "@ + e@,
            input matches Ok(i) ==> r matches Err(CliError::ToolExecution(m)) && m@ == "This tool requires the TUI/system integration."@,
    {
        match input {
            Err(e) => {
                let mut m = owned("Invalid input: ");
                m.append(e);
                Err(CliError::ToolExecution(m))
            },
            Ok(i) => {
                Err(CliError::ToolExecution(owned("This tool requires the TUI/system integration.")))
            },
        }
    }

    /// The line shown when the tool is used; `None` when the arguments did
    /// not parse.
    pub fn render_use_message(&self, input: Option<&RemoteTriggerInput>) -> (r: String)
        ensures
            r@ == match input {
                Some(i) => trigger_use_text(i.action@, match i.trigger_id {
                    Some(t) => Some(t@),
                    None => None,
                }),
                None => "Running RemoteTrigger action"@,
            },
    {
        match input {
            Some(i) => {
                let a = i.action.as_str();
                proof {
                    reveal_strlit("list");
                    reveal_strlit("get");
                    reveal_strlit("create");
                    reveal_strlit("update");
                    reveal_strlit("run");
                }
                if str_eq(a, "list") {
                    owned("Listing remote triggers")
                } else if str_eq(a, "get") && i.trigger_id.is_some() {
                    let mut r = owned("Getting remote trigger: ");
                    r.append(i.trigger_id.as_ref().unwrap().as_str());
                    r
                } else if str_eq(a, "create") {
                    owned("Creating remote trigger")
                } else if str_eq(a, "update") && i.trigger_id.is_some() {
                    let mut r = owned("Updating remote trigger: ");
                    r.append(i.trigger_id.as_ref().unwrap().as_str());
                    r
                } else if str_eq(a, "run") && i.trigger_id.is_some() {
                    let mut r = owned("Running remote trigger: ");
                    r.append(i.trigger_id.as_ref().unwrap().as_str());
                    r
                } else {
                    let mut r = owned("RemoteTrigger action: ");
                    r.append(a);
                    r
                }
            },
            None => owned("Running RemoteTrigger action"),
        }
    }

    /// A short line on how the tool's run ended.
    pub fn render_result_message(&self, result: &ToolResult) -> (r: String)
        ensures
            r@ == if result.is_error { "RemoteTrigger action failed."@ } else { "RemoteTrigger action completed."@ },
    {
        if result.is_error {
            owned("RemoteTrigger action failed.")
        } else {
            owned("RemoteTrigger action completed.")
        }
    }
}

impl Tool for RemoteTriggerTool {
    open spec fn spec_name(&self) -> Seq<char> {
        "RemoteTrigger"@
    }

    open spec fn spec_aliases(&self) -> Seq<Seq<char>> {
        seq![]
    }

    open spec fn spec_description(&self) -> Seq<char> {
        "Manages scheduled remote agent triggers via the API. Supports listing, retrieving, creating, updating, and running remote trigger definitions. Requires authentication with a "@
                + self.account_site@ + " account."@
    }

    open spec fn spec_concurrency_safe(&self) -> bool {
        true
    }

    open spec fn spec_read_only(&self) -> bool {
        false
    }

    fn name(&self) -> (r: &str) {
        "RemoteTrigger"
    }

    fn aliases(&self) -> (r: Vec<String>) {
        let r: Vec<String> = Vec::new();
        assert(views(r@) =~= seq![]);
        r
    }

    fn description(&self) -> (r: String) {
        let mut d = owned(
            "Manages scheduled remote agent triggers via the API. Supports listing, retrieving, creating, updating, and running remote trigger definitions. Requires authentication with a ",
        );
        d.append(self.account_site.as_str());
        d.append(" account.");
        d
    }

    fn is_read_only(&self) -> (r: bool)
        ensures
            !r,
    {
        false
    }

    fn is_concurrency_safe(&self) -> (r: bool)
        ensures
            r,
    {
        true
    }
}

} // verus!
