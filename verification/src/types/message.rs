//! Conversation content blocks.

use vstd::prelude::*;

verus! {

/// Image content source.
#[derive(Debug)]
pub struct ImageSource {
    pub source_type: String,
    pub media_type: String,
    pub data: String,
}

/// Content block types.
#[derive(Debug)]
pub enum ContentBlock {
    Text { text: String },
    ToolUse { id: String, name: String, input: serde_json::Value },
    ToolResult { tool_use_id: String, content: String },
    Image { source: ImageSource },
}

/// The text of the first text block of `blocks`, if any.
pub open spec fn first_text(blocks: Seq<ContentBlock>) -> Option<Seq<char>>
    decreases blocks.len(),
{
    if blocks.len() == 0 {
        None
    } else {
        match blocks[0] {
            ContentBlock::Text { text } => Some(text@),
            _ => first_text(blocks.drop_first()),
        }
    }
}

proof fn lemma_first_text_step(blocks: Seq<ContentBlock>, i: int)
    requires
        0 <= i < blocks.len(),
        !(blocks[i] is Text),
    ensures
        first_text(blocks.skip(i)) == first_text(blocks.skip(i + 1)),
{
    assert(blocks.skip(i).drop_first() =~= blocks.skip(i + 1));
}

fn first_text_of(blocks: &Vec<ContentBlock>) -> (r: Option<String>)
    ensures
        match r {
            Some(t) => first_text(blocks@) == Some(t@),
            None => first_text(blocks@) is None,
        },
{
    let mut i: usize = 0;
    assert(blocks@.skip(0) =~= blocks@);
    while i < blocks.len()
        invariant
            i <= blocks.len(),
            first_text(blocks@) == first_text(blocks@.skip(i as int)),
        decreases blocks.len() - i,
    {
        match &blocks[i] {
            ContentBlock::Text { text } => {
                return Some(text.clone());
            },
            _ => {
                proof {
                    lemma_first_text_step(blocks@, i as int);
                }
            },
        }
        i = i + 1;
    }
    assert(blocks@.skip(i as int).len() == 0);
    None
}

/// User content with multiple content blocks.
#[derive(Debug)]
pub struct UserContent {
    pub content: Vec<ContentBlock>,
}

impl UserContent {
    /// User content made of one text block.
    pub fn text(text: String) -> (r: Self)
        ensures
            r.content@.len() == 1,
            r.content@[0] == (ContentBlock::Text { text }),
    {
        UserContent { content: vec![ContentBlock::Text { text }] }
    }

    /// The text of the first text block, if any.
    pub fn text_preview(&self) -> (r: Option<String>)
        ensures
            match r {
                Some(t) => first_text(self.content@) == Some(t@),
                None => first_text(self.content@) is None,
            },
    {
        first_text_of(&self.content)
    }
}

/// Assistant content.
#[derive(Debug)]
pub struct AssistantContent {
    pub content: Vec<ContentBlock>,
    pub model: String,
    pub stop_reason: Option<String>,
}

impl AssistantContent {
    /// The text of the first text block, if any.
    pub fn text_preview(&self) -> (r: Option<String>)
        ensures
            match r {
                Some(t) => first_text(self.content@) == Some(t@),
                None => first_text(self.content@) is None,
            },
    {
        first_text_of(&self.content)
    }
}

/// Progress data for streaming updates.
#[derive(Debug)]
pub struct ProgressData {
    pub message: Option<String>,
    /// The progress fraction, held as the bit pattern of its `f64`
    /// (`f64::to_bits`); the library never computes with it.
    pub progress_bits: Option<u64>,
}

/// A message of a conversation.
#[derive(Debug)]
#[allow(inconsistent_fields)]
pub enum Message {
    User { content: UserContent },
    Assistant { content: Option<AssistantContent> },
    Progress { data: ProgressData },
    System { subtype: String, level: Option<String>, message: String },
    Attachment { path: String },
    ToolUse { id: String, name: String, input: serde_json::Value },
    ToolResult { tool_use_id: String, content: String, is_error: bool },
    HookResult { hook_name: String, result: serde_json::Value },
    Tombstone,
    GroupedToolUse { tool_uses: Vec<ToolUseSummary> },
}

/// Summary of a tool use.
#[derive(Debug)]
pub struct ToolUseSummary {
    pub id: String,
    pub name: String,
    pub input: serde_json::Value,
}

} // verus!
