//! ExitPlanMode tool: present the plan for approval and start coding.

use vstd::prelude::*;
use vstd::utf8::*;
use crate::error::CliError;
use crate::text::{decimal, owned, u64_to_decimal, views};
use crate::types::tool::{error_result, is_text_result, Tool, ToolResult};

verus! {

/// A kind of action that the plan asks to be allowed.
pub struct AllowedPrompt {
    /// The tool the prompt applies to.
    pub tool: String,
    /// What the action does, in words.
    pub prompt: String,
}

/// The arguments of an ExitPlanMode call.
pub struct ExitPlanModeInput {
    /// The kinds of action the plan needs allowed.
    pub allowed_prompts: Option<Vec<AllowedPrompt>>,
}

/// "Exiting plan mode (<n> allowed prompt[s])".
pub open spec fn exit_plan_text(input: Option<ExitPlanModeInput>) -> Seq<char> {
    match input {
        Some(ExitPlanModeInput { allowed_prompts: Some(p) }) => "Exiting plan mode ("@ + decimal(p@.len())
            + " allowed prompt"@ + (if p@.len() == 1 { seq![] } else { "s"@ }) + ")"@,
        _ => "Exiting plan mode"@,
    }
}

/// Leaves plan mode.
pub struct ExitPlanModeTool;

impl ExitPlanModeTool {
    pub fn new() -> (r: Self) {
        ExitPlanModeTool
    }

    /// Runs the tool: leaving plan mode is not available here.
    pub fn call(&self) -> (r: Result<ToolResult, CliError>)
        ensures
            r matches Ok(res) && is_text_result(res, "Plan mode exit is not available in this context."@, true),
    {
        Ok(error_result("Plan mode exit is not available in this context."))
    }

    /// The line shown when the tool is used; `None` when the arguments did
    /// not parse.
    pub fn render_use_message(&self, input: Option<&ExitPlanModeInput>) -> (r: String)
        ensures
            r@ == exit_plan_text(match input { Some(i) => Some(*i), None => None }),
    {
        match input {
            Some(i) => match &i.allowed_prompts {
                Some(p) => {
                    let n = p.len();
                    let mut r = owned("Exiting plan mode (");
                    let d = u64_to_decimal(n as u64);
                    r.append(d.as_str());
                    r.append(" allowed prompt");
                    if n != 1 {
                        r.append("s");
                    }
                    r.append(")");
                    r
                },
                None => owned("Exiting plan mode"),
            },
            None => owned("Exiting plan mode"),
        }
    }
}

impl Default for ExitPlanModeTool {
    fn default() -> (r: Self) {
        ExitPlanModeTool::new()
    }
}

impl Tool for ExitPlanModeTool {
    open spec fn spec_name(&self) -> Seq<char> {
        "ExitPlanMode"@
    }

    open spec fn spec_aliases(&self) -> Seq<Seq<char>> {
        seq![]
    }

    open spec fn spec_description(&self) -> Seq<char> {
        "Prompts the user to exit plan mode and start coding."@
    }

    open spec fn spec_concurrency_safe(&self) -> bool {
        true
    }

    open spec fn spec_read_only(&self) -> bool {
        false
    }

    fn name(&self) -> (r: &str) {
        "ExitPlanMode"
    }

    fn aliases(&self) -> (r: Vec<String>) {
        let r: Vec<String> = Vec::new();
        assert(views(r@) =~= seq![]);
        r
    }

    fn description(&self) -> (r: String) {
        owned("Prompts the user to exit plan mode and start coding.")
    }

    fn is_read_only(&self) -> (r: bool)
        ensures
            !r,
    {
        false
    }

    fn is_concurrency_safe(&self) -> (r: bool)
        ensures
            r,
    {
        true
    }
}

} // verus!
