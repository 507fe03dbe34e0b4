//! Tool system types.

use vstd::prelude::*;
use vstd::string::*;
use vstd::utf8::*;
use std::collections::HashMap;
use crate::text::{byte_len, byte_prefix, cut_ok, join, join_seq, owned, prefix_bytes, str_byte_len, views};
use crate::types::message::ImageSource;
use crate::types::permission::PermissionUpdate;

verus! {

/// Tool context passed during execution.
#[derive(Debug)]
pub struct ToolContext {
    pub session_id: String,
    pub agent_id: String,
    pub working_directory: std::path::PathBuf,
    pub can_use_tool: bool,
    pub parent_message_id: Option<String>,
    /// Additional environment variables for tool execution.
    pub env: HashMap<String, String>,
}

/// Tool execution metrics.
#[derive(Debug, Clone, Copy, PartialEq, Eq, Structural)]
pub struct ToolMetrics {
    pub duration_ms: u64,
    pub tokens_used: Option<u32>,
}

/// Content block in a tool result.
#[derive(Debug)]
pub enum ResultContentBlock {
    Text { text: String },
    ToolUse { id: String, name: String, input: serde_json::Value },
    ToolResult { tool_use_id: String, content: String },
    Image { source: ImageSource },
}

/// The short preview of a content block.
pub open spec fn block_preview(b: ResultContentBlock) -> Seq<char> {
    match b {
        ResultContentBlock::Text { text } => text@,
        ResultContentBlock::ToolUse { name, .. } => "[tool: "@ + name@ + "]"@,
        ResultContentBlock::ToolResult { content, .. } => content@,
        ResultContentBlock::Image { .. } => "[image]"@,
    }
}

impl ResultContentBlock {
    /// Short preview of the content block.
    pub fn preview(&self) -> (r: String)
        ensures
            r@ == block_preview(*self),
    {
        match self {
            ResultContentBlock::Text { text } => text.clone(),
            ResultContentBlock::ToolUse { name, .. } => {
                let mut r = owned("[tool: ");
                r.append(name.as_str());
                r.append("]");
                r
            },
            ResultContentBlock::ToolResult { content, .. } => content.clone(),
            ResultContentBlock::Image { .. } => owned("[image]"),
        }
    }
}

/// Result of a tool execution.
#[derive(Debug)]
pub struct ToolResult {
    pub content: Vec<ResultContentBlock>,
    pub is_error: bool,
    pub metrics: Option<ToolMetrics>,
}

/// `r` is a result holding the single text block `text`, marked as an
/// error or not.
pub open spec fn is_text_result(r: ToolResult, text: Seq<char>, is_error: bool) -> bool {
    &&& r.content@.len() == 1
    &&& r.content@[0] matches ResultContentBlock::Text { text: t } && t@ == text
    &&& r.is_error == is_error
    &&& r.metrics is None
}

impl ToolResult {
    /// A successful result holding one text block.
    pub fn text(text: String) -> (r: Self)
        ensures
            is_text_result(r, text@, false),
    {
        ToolResult { content: vec![ResultContentBlock::Text { text }], is_error: false, metrics: None }
    }

    /// A failed result holding one text block.
    pub fn error(text: String) -> (r: Self)
        ensures
            is_text_result(r, text@, true),
    {
        ToolResult { content: vec![ResultContentBlock::Text { text }], is_error: true, metrics: None }
    }
}

/// A failed result whose text is the given literal.
pub fn error_result(text: &str) -> (r: ToolResult)
    ensures
        is_text_result(r, text@, true),
{
    ToolResult::error(owned(text))
}

/// A successful result whose text is the given literal.
pub fn text_result(text: &str) -> (r: ToolResult)
    ensures
        is_text_result(r, text@, false),
{
    ToolResult::text(owned(text))
}

/// `content` is made of text blocks holding `texts`, in order.
pub open spec fn text_blocks(content: Seq<ResultContentBlock>, texts: Seq<Seq<char>>) -> bool {
    &&& content.len() == texts.len()
    &&& forall|i: int| 0 <= i < content.len() ==>
        (#[trigger] content[i] matches ResultContentBlock::Text { text } && text@ == texts[i])
}

/// The previews of all blocks of a result, joined with "; ".
pub open spec fn joined_previews(content: Seq<ResultContentBlock>) -> Seq<char> {
    join_seq(content.map_values(|b: ResultContentBlock| block_preview(b)), "; "@)
}

/// `s` itself when it has at most `n` bytes, else its first `n` bytes
/// followed by `marker`.
pub open spec fn cut_with(s: Seq<char>, n: int, marker: Seq<char>) -> Seq<char> {
    if byte_len(s) > n {
        byte_prefix(s, n) + marker
    } else {
        s
    }
}

/// `s` cut to at most `n` bytes, with `marker` appended when it was cut.
/// The cut must fall between characters.
pub fn cut_marked(s: &str, n: usize, marker: &str) -> (r: String)
    requires
        cut_ok(s@, n as int),
    ensures
        r@ == cut_with(s@, n as int, marker@),
{
    if str_byte_len(s) > n {
        let mut r = owned(prefix_bytes(s, n));
        r.append(marker);
        r
    } else {
        owned(s)
    }
}

/// The previews of the result's blocks joined with "; ".
pub fn joined_preview_text(result: &ToolResult) -> (r: String)
    ensures
        r@ == joined_previews(result.content@),
{
    let mut previews: Vec<String> = Vec::new();
    let mut i: usize = 0;
    while i < result.content.len()
        invariant
            i <= result.content.len(),
            previews@.len() == i,
            forall|j: int| 0 <= j < i ==> #[trigger] previews@[j]@ == block_preview(result.content@[j]),
        decreases result.content.len() - i,
    {
        previews.push(result.content[i].preview());
        i = i + 1;
    }
    assert(views(previews@) =~= result.content@.map_values(|b: ResultContentBlock| block_preview(b)));
    join(&previews, "; ")
}

/// How a tool renders its result unless it says otherwise: the previews
/// joined with "; ", cut after 200 bytes with "..." appended.
pub fn default_render_result_message(result: &ToolResult) -> (r: String)
    requires
        cut_ok(joined_previews(result.content@), 200),
    ensures
        r@ == cut_with(joined_previews(result.content@), 200, "..."@),
{
    let joined = joined_preview_text(result);
    cut_marked(joined.as_str(), 200, "...")
}

/// `default_render_result_message`, or `None` when the previews are over
/// 200 bytes and the cut would split a character.
pub fn checked_render_result_message(result: &ToolResult) -> (r: Option<String>)
    ensures
        r is Some == cut_ok(joined_previews(result.content@), 200),
        r matches Some(t) ==> t@ == cut_with(joined_previews(result.content@), 200, "..."@),
{
    let joined = joined_preview_text(result);
    if str_byte_len(joined.as_str()) > 200 && !joined.as_str().is_char_boundary(200) {
        return None;
    }
    Some(cut_marked(joined.as_str(), 200, "..."))
}

/// How a tool describes its use unless it says otherwise.
pub open spec fn default_use_text(name: Seq<char>, args_json: Seq<char>) -> Seq<char> {
    "Using "@ + name + " with args: "@ + args_json
}

/// "Using <name> with args: <arguments as JSON text>".
pub fn default_render_use_message(name: &str, args_json: &str) -> (r: String)
    ensures
        r@ == default_use_text(name@, args_json@),
{
    let mut r = owned("Using ");
    r.append(name);
    r.append(" with args: ");
    r.append(args_json);
    r
}

/// Permission check result.
#[derive(Debug)]
pub enum PermissionCheck {
    Allowed,
    Denied(String),
    NeedsApproval { message: String, suggestions: Vec<PermissionUpdate> },
}

/// What every tool tells about itself.
pub trait Tool {
    /// The tool's unique name.
    spec fn spec_name(&self) -> Seq<char>;

    /// The tool's other names.
    spec fn spec_aliases(&self) -> Seq<Seq<char>>;

    /// Unique name of the tool.
    fn name(&self) -> (r: &str)
        ensures
            r@ == self.spec_name(),
    ;

    /// Other names by which the tool can be found.
    fn aliases(&self) -> (r: Vec<String>)
        ensures
            views(r@) == self.spec_aliases(),
    ;

    /// The tool's description.
    spec fn spec_description(&self) -> Seq<char>;

    /// Whether the tool can be called concurrently with itself; unless
    /// the tool says otherwise, it can.
    open spec fn spec_concurrency_safe(&self) -> bool {
        true
    }

    /// Whether the tool only reads data; unless the tool says otherwise,
    /// it does not.
    open spec fn spec_read_only(&self) -> bool {
        false
    }

    /// Whether the tool modifies or deletes data; unless the tool says
    /// otherwise, it does not.
    open spec fn spec_destructive(&self) -> bool {
        false
    }

    /// Whether the tool is enabled; unless the tool says otherwise, it is.
    open spec fn spec_enabled(&self) -> bool {
        true
    }

    /// Human-readable description.
    fn description(&self) -> (r: String)
        ensures
            r@ == self.spec_description(),
    ;

    /// Whether this tool can be called concurrently with itself.
    fn is_concurrency_safe(&self) -> (r: bool)
        default_ensures
            r,
    {
        true
    }

    /// Whether this tool only reads data.
    fn is_read_only(&self) -> (r: bool)
        default_ensures
            !r,
    {
        false
    }

    /// Whether this tool modifies or deletes data.
    fn is_destructive(&self) -> (r: bool)
        default_ensures
            !r,
    {
        false
    }

    /// Whether this tool is currently enabled.
    fn is_enabled(&self) -> (r: bool)
        default_ensures
            r,
    {
        true
    }
}

} // verus!
