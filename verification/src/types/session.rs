//! Sessions: their messages, token accounting and configuration.

use vstd::prelude::*;
use std::collections::HashMap;
use crate::ext::now_millis;
use crate::text::owned;
use crate::types::message::Message;
use crate::types::permission::PermissionMode;

verus! {

/// The part of the default system prompt after its first line.
pub open spec fn prompt_body() -> Seq<char> {
    "Your knowledge cutoff is 2024-04. You are helpful, creative, and care about writing good software.\n\nAvailable tools: bash, read, write, edit, grep, glob, web_fetch, web_search.\n- Use bash to run commands.\n- Use read to view files.\n- Use write to create or overwrite files.\n- Use edit to make targeted changes.\n- Use grep to search file contents.\n- Use glob to find files by pattern.\n- Use web_fetch to get content from a URL.\n- Use web_search to search the web.\n\nWhen using tools:\n- Be precise about file paths.\n- Prefer the most targeted tool for the job.\n- Always prefer existing files over creating new ones.\n- Check your work by reading files back.\n\nFor code tasks:\n- Write clean, readable code.\n- Follow the project's existing conventions.\n- Write tests when adding significant logic.\n\nIf you don't know something, say so rather than guessing.\n"@
}

/// The system prompt a session starts with unless told otherwise: "You are
/// <product>, an AI assistant built by <maker>." followed by the standing
/// instructions.
pub fn default_system_prompt(product: &str, maker: &str) -> (r: String)
    ensures
        r@ == "You are "@ + product@ + ", an AI assistant built by "@ + maker@ + ".\n"@ + prompt_body(),
{
    let mut p = owned("You are ");
    p.append(product);
    p.append(", an AI assistant built by ");
    p.append(maker);
    p.append(".\n");
    p.append("Your knowledge cutoff is 2024-04. You are helpful, creative, and care about writing good software.\n\nAvailable tools: bash, read, write, edit, grep, glob, web_fetch, web_search.\n- Use bash to run commands.\n- Use read to view files.\n- Use write to create or overwrite files.\n- Use edit to make targeted changes.\n- Use grep to search file contents.\n- Use glob to find files by pattern.\n- Use web_fetch to get content from a URL.\n- Use web_search to search the web.\n\nWhen using tools:\n- Be precise about file paths.\n- Prefer the most targeted tool for the job.\n- Always prefer existing files over creating new ones.\n- Check your work by reading files back.\n\nFor code tasks:\n- Write clean, readable code.\n- Follow the project's existing conventions.\n- Write tests when adding significant logic.\n\nIf you don't know something, say so rather than guessing.\n");
    p
}

/// Token usage tracking.
#[derive(Debug, Clone, Copy, PartialEq, Eq, Structural)]
pub struct TokenUsage {
    pub input_tokens: u64,
    pub output_tokens: u64,
    pub cache_creation_tokens: u64,
    pub cache_read_tokens: u64,
}

impl Default for TokenUsage {
    fn default() -> (r: Self)
        ensures
            r.input_tokens == 0,
            r.output_tokens == 0,
            r.cache_creation_tokens == 0,
            r.cache_read_tokens == 0,
    {
        TokenUsage { input_tokens: 0, output_tokens: 0, cache_creation_tokens: 0, cache_read_tokens: 0 }
    }
}

impl TokenUsage {
    /// The sum of all four counters.
    pub open spec fn spec_total(self) -> int {
        self.input_tokens + self.output_tokens + self.cache_creation_tokens + self.cache_read_tokens
    }

    /// All tokens counted, cache tokens included.
    pub fn total(&self) -> (r: u64)
        requires
            self.spec_total() <= u64::MAX,
        ensures
            r == self.spec_total(),
    {
        self.input_tokens + self.output_tokens + self.cache_creation_tokens + self.cache_read_tokens
    }

    /// Adds each counter of `other` to the same counter of `self`.
    pub fn add(&mut self, other: &TokenUsage)
        requires
            old(self).input_tokens + other.input_tokens <= u64::MAX,
            old(self).output_tokens + other.output_tokens <= u64::MAX,
            old(self).cache_creation_tokens + other.cache_creation_tokens <= u64::MAX,
            old(self).cache_read_tokens + other.cache_read_tokens <= u64::MAX,
        ensures
            final(self).input_tokens == old(self).input_tokens + other.input_tokens,
            final(self).output_tokens == old(self).output_tokens + other.output_tokens,
            final(self).cache_creation_tokens == old(self).cache_creation_tokens
                + other.cache_creation_tokens,
            final(self).cache_read_tokens == old(self).cache_read_tokens + other.cache_read_tokens,
    {
        self.input_tokens = self.input_tokens + other.input_tokens;
        self.output_tokens = self.output_tokens + other.output_tokens;
        self.cache_creation_tokens = self.cache_creation_tokens + other.cache_creation_tokens;
        self.cache_read_tokens = self.cache_read_tokens + other.cache_read_tokens;
    }
}

/// A conversation session.
pub struct Session {
    pub id: String,
    pub messages: Vec<Message>,
    pub model: String,
    pub system_prompt: Option<String>,
    /// Milliseconds since the Unix epoch.
    pub created_at: i64,
    pub updated_at: i64,
    /// The cost so far, held as the bit pattern of its `f64`
    /// (`f64::to_bits`); the library never computes with it.
    pub cost_bits: u64,
    pub token_usage: TokenUsage,
}

impl Session {
    /// A new, empty session, created and updated now, at no cost.
    pub fn new(id: String, model: String) -> (r: Self)
        ensures
            r.id == id,
            r.model == model,
            r.messages@.len() == 0,
            r.system_prompt is None,
            r.created_at == r.updated_at,
            r.cost_bits == 0,
            r.token_usage == (TokenUsage { input_tokens: 0, output_tokens: 0, cache_creation_tokens: 0, cache_read_tokens: 0 }),
    {
        let now = now_millis();
        Session {
            id,
            messages: Vec::new(),
            model,
            system_prompt: None,
            created_at: now,
            updated_at: now,
            cost_bits: 0,
            token_usage: TokenUsage::default(),
        }
    }

    /// Appends a message and marks the session updated now.
    pub fn add_message(&mut self, msg: Message)
        ensures
            final(self).messages@ == old(self).messages@.push(msg),
            final(self).id == old(self).id,
            final(self).model == old(self).model,
            final(self).system_prompt == old(self).system_prompt,
            final(self).created_at == old(self).created_at,
            final(self).cost_bits == old(self).cost_bits,
            final(self).token_usage == old(self).token_usage,
    {
        self.updated_at = now_millis();
        self.messages.push(msg);
    }

    /// Input tokens used so far.
    pub fn input_tokens(&self) -> (r: u64)
        ensures
            r == self.token_usage.input_tokens,
    {
        self.token_usage.input_tokens
    }

    /// Output tokens used so far.
    pub fn output_tokens(&self) -> (r: u64)
        ensures
            r == self.token_usage.output_tokens,
    {
        self.token_usage.output_tokens
    }

    /// All tokens used so far, cache tokens included.
    pub fn total_tokens(&self) -> (r: u64)
        requires
            self.token_usage.spec_total() <= u64::MAX,
        ensures
            r == self.token_usage.spec_total(),
    {
        self.token_usage.total()
    }
}

/// Session configuration.
pub struct SessionConfig {
    pub model: String,
    /// The sampling temperature, held as the bit pattern of its `f32`
    /// (`f32::to_bits`); the library never computes with it.
    pub temperature_bits: Option<u32>,
    pub max_tokens: Option<u32>,
    pub system_prompt: Option<String>,
    pub permission_mode: PermissionMode,
    pub tools: Vec<serde_json::Value>,
    pub metadata: HashMap<String, serde_json::Value>,
}

impl SessionConfig {
    /// The default configuration for `model`: 8192 tokens at most, default
    /// permissions, and nothing else set.
    pub fn with_defaults(model: String) -> (r: Self)
        ensures
            r.model == model,
            r.temperature_bits is None,
            r.max_tokens == Some(8192u32),
            r.system_prompt is None,
            r.permission_mode == PermissionMode::Default,
            r.tools@.len() == 0,
            r.metadata@.len() == 0,
    {
        SessionConfig {
            model,
            temperature_bits: None,
            max_tokens: Some(8192),
            system_prompt: None,
            permission_mode: PermissionMode::Default,
            tools: Vec::new(),
            metadata: HashMap::new(),
        }
    }

    /// The same configuration with another permission mode.
    pub fn with_permission_mode(self, mode: PermissionMode) -> (r: Self)
        ensures
            r.permission_mode == mode,
            r.model == self.model,
            r.temperature_bits == self.temperature_bits,
            r.max_tokens == self.max_tokens,
            r.system_prompt == self.system_prompt,
            r.tools@ == self.tools@,
            r.metadata@ == self.metadata@,
    {
        let mut c = self;
        c.permission_mode = mode;
        c
    }
}

/// A session as listed.
pub struct SessionSummary {
    pub id: String,
    pub model: String,
    pub created_at: i64,
    pub updated_at: i64,
    /// The cost, held as the bit pattern of its `f64`.
    pub cost_bits: u64,
    pub message_count: usize,
    pub active_worktree: Option<String>,
}

/// Law: the total counts every kind of token: a usage's total is at
/// least each of its counters, and with no input or output tokens it is
/// the cache tokens alone.
pub proof fn lemma_total_counts_all(u: TokenUsage)
    ensures
        u.spec_total() >= u.input_tokens,
        u.spec_total() >= u.output_tokens,
        u.spec_total() >= u.cache_creation_tokens,
        u.spec_total() >= u.cache_read_tokens,
        u.spec_total() == u.input_tokens + u.output_tokens + u.cache_creation_tokens + u.cache_read_tokens,
{
}

/// Law: adding usage adds totals.
pub proof fn lemma_add_total(a: TokenUsage, b: TokenUsage, sum: TokenUsage)
    requires
        sum.input_tokens == a.input_tokens + b.input_tokens,
        sum.output_tokens == a.output_tokens + b.output_tokens,
        sum.cache_creation_tokens == a.cache_creation_tokens + b.cache_creation_tokens,
        sum.cache_read_tokens == a.cache_read_tokens + b.cache_read_tokens,
    ensures
        sum.spec_total() == a.spec_total() + b.spec_total(),
{
}

} // verus!
