//! Permission system types.

use vstd::prelude::*;
use vstd::string::*;
use crate::text::{owned, str_eq};

verus! {

/// Permission mode for tool execution.
#[derive(Debug, Clone, Copy, PartialEq, Eq, Structural)]
pub enum PermissionMode {
    AcceptEdits,
    BypassPermissions,
    Default,
    DontAsk,
    Plan,
    Auto,
    Bubble,
}

impl Default for PermissionMode {
    fn default() -> (r: Self)
        ensures
            r == PermissionMode::Default,
    {
        PermissionMode::Default
    }
}

/// The name of a permission mode, as it is written and parsed.
pub open spec fn mode_name(m: PermissionMode) -> Seq<char> {
    match m {
        PermissionMode::AcceptEdits => "acceptEdits"@,
        PermissionMode::BypassPermissions => "bypassPermissions"@,
        PermissionMode::Default => "default"@,
        PermissionMode::DontAsk => "dontAsk"@,
        PermissionMode::Plan => "plan"@,
        PermissionMode::Auto => "auto"@,
        PermissionMode::Bubble => "bubble"@,
    }
}

/// The mode whose name is `s`, if any.
pub open spec fn parse_mode(s: Seq<char>) -> Option<PermissionMode> {
    if s == "acceptEdits"@ {
        Some(PermissionMode::AcceptEdits)
    } else if s == "bypassPermissions"@ {
        Some(PermissionMode::BypassPermissions)
    } else if s == "default"@ {
        Some(PermissionMode::Default)
    } else if s == "dontAsk"@ {
        Some(PermissionMode::DontAsk)
    } else if s == "plan"@ {
        Some(PermissionMode::Plan)
    } else if s == "auto"@ {
        Some(PermissionMode::Auto)
    } else if s == "bubble"@ {
        Some(PermissionMode::Bubble)
    } else {
        None
    }
}

impl PermissionMode {
    /// The mode's name (its display form).
    pub fn to_string(&self) -> (r: String)
        ensures
            r@ == mode_name(*self),
    {
        match self {
            PermissionMode::AcceptEdits => owned("acceptEdits"),
            PermissionMode::BypassPermissions => owned("bypassPermissions"),
            PermissionMode::Default => owned("default"),
            PermissionMode::DontAsk => owned("dontAsk"),
            PermissionMode::Plan => owned("plan"),
            PermissionMode::Auto => owned("auto"),
            PermissionMode::Bubble => owned("bubble"),
        }
    }

    /// Reads a mode from its name; any other text is refused with
    /// "unknown permission mode: <text>".
    pub fn parse(s: &str) -> (r: Result<PermissionMode, String>)
        ensures
            match r {
                Ok(m) => parse_mode(s@) == Some(m),
                Err(e) => parse_mode(s@) is None && e@ == "unknown permission mode: "@ + s@,
            },
    {
        if str_eq(s, "acceptEdits") {
            Ok(PermissionMode::AcceptEdits)
        } else if str_eq(s, "bypassPermissions") {
            Ok(PermissionMode::BypassPermissions)
        } else if str_eq(s, "default") {
            Ok(PermissionMode::Default)
        } else if str_eq(s, "dontAsk") {
            Ok(PermissionMode::DontAsk)
        } else if str_eq(s, "plan") {
            Ok(PermissionMode::Plan)
        } else if str_eq(s, "auto") {
            Ok(PermissionMode::Auto)
        } else if str_eq(s, "bubble") {
            Ok(PermissionMode::Bubble)
        } else {
            let mut e = owned("unknown permission mode: ");
            e.append(s);
            Err(e)
        }
    }
}

impl std::str::FromStr for PermissionMode {
    type Err = String;

    fn from_str(s: &str) -> (r: Result<Self, Self::Err>)
        ensures
            match r {
                Ok(m) => parse_mode(s@) == Some(m),
                Err(e) => parse_mode(s@) is None && e@ == "unknown permission mode: "@ + s@,
            },
    {
        PermissionMode::parse(s)
    }
}

/// Law: every mode's name reads back as that mode, and a name that reads
/// as a mode is that mode's name.
pub proof fn lemma_mode_name_roundtrip(m: PermissionMode, s: Seq<char>)
    ensures
        parse_mode(mode_name(m)) == Some(m),
        parse_mode(s) == Some(m) ==> mode_name(m) == s,
{
    reveal_strlit("acceptEdits");
    reveal_strlit("bypassPermissions");
    reveal_strlit("default");
    reveal_strlit("dontAsk");
    reveal_strlit("plan");
    reveal_strlit("auto");
    reveal_strlit("bubble");
    assert("acceptEdits"@.len() == 11);
    assert("bypassPermissions"@.len() == 17);
    assert("default"@.len() == 7 && "default"@[1] == 'e');
    assert("dontAsk"@.len() == 7 && "dontAsk"@[1] == 'o');
    assert("plan"@.len() == 4 && "plan"@[0] == 'p');
    assert("auto"@.len() == 4 && "auto"@[0] == 'a');
    assert("bubble"@.len() == 6);
}

/// Suggested permission update.
#[derive(Debug)]
pub struct PermissionUpdate {
    pub path: String,
    pub value: serde_json::Value,
}

/// Permission evaluation result.
#[derive(Debug)]
pub enum PermissionDecision {
    Allow,
    Deny(String),
    Ask { message: String, suggestions: Vec<PermissionUpdate> },
    Passthrough(String),
}

/// Permission rule for tool-specific permissions.
#[derive(Debug)]
pub struct PermissionRule {
    pub tool_name: String,
    pub path_pattern: Option<String>,
    pub content_pattern: Option<String>,
    pub decision: PermissionDecision,
}

impl PermissionRule {
    /// A rule that allows every use of the named tool.
    pub fn allow_all(tool_name: String) -> (r: Self)
        ensures
            r.tool_name == tool_name,
            r.path_pattern is None,
            r.content_pattern is None,
            r.decision is Allow,
    {
        PermissionRule {
            tool_name,
            path_pattern: None,
            content_pattern: None,
            decision: PermissionDecision::Allow,
        }
    }
}

} // verus!
