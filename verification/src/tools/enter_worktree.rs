//! EnterWorktree tool: creates an isolated git worktree and switches the
//! session into it.

use vstd::prelude::*;
use vstd::string::*;
use crate::error::CliError;
use crate::text::{chars_of, decimal, is_alphanumeric, char_alphanumeric, owned, u64_to_decimal, views};
use crate::types::tool::{error_result, is_text_result, Tool, ToolResult};

verus! {

/// A character that a worktree slug may hold: a letter, a digit, '.', '_'
/// or '-'.
pub open spec fn slug_char(c: char) -> bool {
    char_alphanumeric(c) || c == '.' || c == '_' || c == '-'
}

/// The error, if any, that a worktree slug is refused with.
pub open spec fn slug_error(s: Seq<char>) -> Option<Seq<char>> {
    if s.len() > 64 {
        Some("worktree slug must be at most 64 characters, got "@ + decimal(s.len()))
    } else if !(forall|i: int| 0 <= i < s.len() ==> slug_char(#[trigger] s[i])) {
        Some(
            "worktree slug may only contain letters, digits, dots, underscores, and dashes, got: "@
                + s,
        )
    } else {
        None
    }
}

/// Checks that a worktree slug holds only letters, digits, dots,
/// underscores and dashes, in at most 64 characters.
pub fn validate_worktree_slug(s: &str) -> (r: Result<(), String>)
    ensures
        r is Ok <==> slug_error(s@) is None,
        r matches Err(e) ==> slug_error(s@) == Some(e@),
{
    let cs = chars_of(s);
    let len = cs.len();
    if len > 64 {
        let mut e = owned("worktree slug must be at most 64 characters, got ");
        let n = u64_to_decimal(len as u64);
        e.append(n.as_str());
        assert(e@ == "worktree slug must be at most 64 characters, got "@ + decimal(s@.len()));
        return Err(e);
    }
    let mut i: usize = 0;
    while i < cs.len()
        invariant
            cs@ == s@,
            s@.len() <= 64,
            i <= cs.len(),
            forall|j: int| 0 <= j < i ==> slug_char(#[trigger] s@[j]),
        decreases cs.len() - i,
    {
        let c = cs[i];
        if !(is_alphanumeric(c) || c == '.' || c == '_' || c == '-') {
            assert(!slug_char(s@[i as int]));
            let mut e = owned(
                "worktree slug may only contain letters, digits, dots, underscores, and dashes, got: ",
            );
            e.append(s);
            return Err(e);
        }
        i = i + 1;
    }
    Ok(())
}

/// Creates an isolated worktree and switches the session into it.
pub struct EnterWorktreeTool;

impl EnterWorktreeTool {
    pub fn new() -> (r: Self) {
        EnterWorktreeTool
    }

    /// Runs the tool on its parsed arguments, or on the parse error's text:
    /// a name that is not a valid slug is refused with the reason, arguments
    /// that did not parse with "invalid input: <error>"; otherwise worktree
    /// operations are not available here. Every answer is a failed result.
    pub fn call(&self, input: Result<&EnterWorktreeInput, &str>) -> (r: Result<ToolResult, CliError>)
        ensures
            r matches Ok(res) && match input {
                Err(e) => is_text_result(res, "invalid input: "@ + e@, true),
                Ok(i) => match i.name {
                    Some(name) => match slug_error(name@) {
                        Some(e) => is_text_result(res, e, true),
                        None => is_text_result(res, "Worktree operations are not available in this context."@, true),
                    },
                    None => is_text_result(res, "Worktree operations are not available in this context."@, true),
                },
            },
    {
        let input = match input {
            Err(e) => {
                let mut m = owned("invalid input: ");
                m.append(e);
                return Ok(ToolResult::error(m));
            },
            Ok(i) => i,
        };
        match &input.name {
            Some(name) => {
                match validate_worktree_slug(name.as_str()) {
                    Err(msg) => {
                        return Ok(ToolResult::error(msg));
                    },
                    Ok(()) => {},
                }
            },
            None => {},
        }
        Ok(error_result("Worktree operations are not available in this context."))
    }

    /// The line shown when the tool is used; `input` is `None` when the
    /// arguments could not be read.
    pub fn render_use_message(&self, input: Option<&EnterWorktreeInput>) -> (r: String)
        ensures
            r@ == match input {
                Some(i) => match i.name {
                    Some(name) => "Creating worktree: "@ + name@,
                    None => "Creating worktree with auto-generated name"@,
                },
                None => "Creating worktree"@,
            },
    {
        match input {
            Some(i) => match &i.name {
                Some(name) => {
                    let mut r = owned("Creating worktree: ");
                    r.append(name.as_str());
                    r
                },
                None => owned("Creating worktree with auto-generated name"),
            },
            None => owned("Creating worktree"),
        }
    }
}

impl Default for EnterWorktreeTool {
    fn default() -> (r: Self) {
        EnterWorktreeTool::new()
    }
}

/// Input of the EnterWorktree tool.
#[derive(Debug)]
pub struct EnterWorktreeInput {
    /// Optional name for the worktree; a random name is generated if absent.
    pub name: Option<String>,
}

impl Tool for EnterWorktreeTool {
    open spec fn spec_name(&self) -> Seq<char> {
        "EnterWorktree"@
    }

    open spec fn spec_aliases(&self) -> Seq<Seq<char>> {
        seq![]
    }

    open spec fn spec_description(&self) -> Seq<char> {
        "Creates an isolated worktree (via git or configured hooks) and switches the session into it."@
    }

    open spec fn spec_read_only(&self) -> bool {
        false
    }

    fn name(&self) -> (r: &str) {
        "EnterWorktree"
    }

    fn aliases(&self) -> (r: Vec<String>) {
        let r: Vec<String> = Vec::new();
        assert(views(r@) =~= seq![]);
        r
    }

    fn description(&self) -> (r: String) {
        owned("Creates an isolated worktree (via git or configured hooks) and switches the session into it.")
    }

    fn is_read_only(&self) -> (r: bool)
        ensures
            !r,
    {
        false
    }
}

} // verus!
