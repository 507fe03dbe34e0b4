//! Agent tool: hand a sub-task to a sub-agent and report its output.

use vstd::prelude::*;
use vstd::utf8::*;
use crate::error::CliError;
use crate::text::{byte_len, byte_prefix, cut_ok, owned, prefix_bytes, str_byte_len, views};
use crate::tools::send_message::opt_view;
use crate::types::tool::{text_blocks, ResultContentBlock, Tool, ToolResult};

verus! {

/// `s` cut to at most `n` bytes.
pub open spec fn cut_to(s: Seq<char>, n: int) -> Seq<char> {
    if byte_len(s) > n {
        byte_prefix(s, n)
    } else {
        s
    }
}

/// What runs sub-agents. Implemented by the program that embeds the
/// library.
pub trait AgentBackend {
    /// Whether `output` is an outcome the backend may give for an agent run
    /// on `prompt`, with `system_prompt` when given. Unless a backend says
    /// more, any outcome may come.
    open spec fn answers(&self, prompt: Seq<char>, system_prompt: Option<Seq<char>>, output: Result<String, CliError>) -> bool {
        true
    }

    /// Runs an agent on `prompt`, with `system_prompt` when given, and
    /// returns its final output.
    fn run_agent(&self, prompt: String, system_prompt: Option<String>) -> (r: Result<String, CliError>)
        ensures
            self.answers(prompt@, opt_view(system_prompt), r),
    ;
}

/// The arguments of an agent call.
pub struct AgentToolInput {
    pub prompt: String,
    pub system_prompt: Option<String>,
}

/// The texts of the text blocks of a result, in order.
pub open spec fn block_texts(content: Seq<ResultContentBlock>) -> Seq<Seq<char>>
    decreases content.len(),
{
    if content.len() == 0 {
        seq![]
    } else {
        block_texts(content.drop_last()) + match content.last() {
            ResultContentBlock::Text { text } => seq![text@],
            _ => seq![],
        }
    }
}

/// The texts, one after the other.
pub open spec fn concat(texts: Seq<Seq<char>>) -> Seq<char>
    decreases texts.len(),
{
    if texts.len() == 0 {
        seq![]
    } else {
        concat(texts.drop_last()) + texts.last()
    }
}

/// What the tool answers for an agent run that came out as `output`: its
/// text as a successful result, or its error.
pub open spec fn agent_reply(output: Result<String, CliError>, r: Result<ToolResult, CliError>) -> bool {
    match output {
        Ok(t) => r matches Ok(res) && !res.is_error && res.metrics is None && text_blocks(res.content@, seq![t@]),
        Err(e) => r == Err::<ToolResult, CliError>(e),
    }
}

fn clone_opt(o: &Option<String>) -> (r: Option<String>)
    ensures
        match (*o, r) {
            (Some(a), Some(b)) => a@ == b@,
            (None, None) => true,
            _ => false,
        },
{
    match o {
        Some(s) => Some(s.clone()),
        None => None,
    }
}

/// Hands sub-tasks to sub-agents run by a backend.
pub struct AgentTool<B: AgentBackend> {
    backend: B,
}

impl<B: AgentBackend> AgentTool<B> {
    /// The backend the tool runs its agents with.
    pub closed spec fn runner(&self) -> B {
        self.backend
    }

    /// A tool that runs its agents with `backend`.
    pub fn new(backend: B) -> (r: Self)
        ensures
            r.runner() == backend,
    {
        AgentTool { backend }
    }

    /// The error for arguments that did not parse: "invalid agent input:
    /// <error>".
    pub fn input_error(&self, e: &str) -> (r: CliError)
        ensures
            r matches CliError::Other(m) && m@ == "invalid agent input: "@ + e@,
    {
        let mut m = owned("invalid agent input: ");
        m.append(e);
        CliError::Other(m)
    }

    /// The result of a call whose agent run came out as `output`: its text
    /// as a successful result, or its error.
    pub fn finish(&self, output: Result<String, CliError>) -> (r: Result<ToolResult, CliError>)
        ensures
            agent_reply(output, r),
    {
        match output {
            Ok(text) => Ok(ToolResult { content: vec![ResultContentBlock::Text { text }], is_error: false, metrics: None }),
            Err(e) => Err(e),
        }
    }

    /// What the backend is asked for a call: the call's prompt and its
    /// system prompt, if any.
    pub fn request(&self, input: &AgentToolInput) -> (r: (String, Option<String>))
        ensures
            r.0@ == input.prompt@,
            opt_view(r.1) == opt_view(input.system_prompt),
    {
        (input.prompt.clone(), clone_opt(&input.system_prompt))
    }

    /// Runs the tool on its parsed arguments, or on the parse error's text:
    /// the tool's backend runs an agent on the call's request (see
    /// `request`), and the tool answers with its output or its error.
    pub fn call(&self, input: Result<&AgentToolInput, &str>) -> (r: Result<ToolResult, CliError>)
        ensures
            input matches Err(e) ==> (r matches Err(CliError::Other(m)) && m@ == "invalid agent input: "@ + e@),
            input matches Ok(i) ==> exists|output: Result<String, CliError>|
                self.runner().answers(i.prompt@, opt_view(i.system_prompt), output)
                    && #[trigger] agent_reply(output, r),
    {
        match input {
            Err(e) => Err(self.input_error(e)),
            Ok(i) => {
                let (prompt, system_prompt) = self.request(i);
                let output = self.backend.run_agent(prompt, system_prompt);
                let ghost out = output;
                let r = self.finish(output);
                assert(agent_reply(out, r));
                r
            },
        }
    }

    /// The line shown when the tool is used, given the arguments' `prompt`
    /// when it is a string: "agent: " and the prompt cut after 80 bytes, or
    /// "agent". The cut must fall between characters.
    pub fn render_use_message(&self, prompt: Option<&str>) -> (r: String)
        requires
            prompt matches Some(p) ==> cut_ok(p@, 80),
        ensures
            r@ == match prompt {
                Some(p) => "agent: "@ + cut_to(p@, 80),
                None => "agent"@,
            },
    {
        match prompt {
            Some(p) => {
                let mut r = owned("agent: ");
                r.append(if str_byte_len(p) > 80 { prefix_bytes(p, 80) } else { p });
                r
            },
            None => owned("agent"),
        }
    }

    /// The texts of the result's text blocks, one after the other.
    pub fn render_result_message(&self, result: &ToolResult) -> (r: String)
        ensures
            r@ == concat(block_texts(result.content@)),
    {
        let mut r = String::new();
        let mut i: usize = 0;
        while i < result.content.len()
            invariant
                i <= result.content@.len(),
                r@ == concat(block_texts(result.content@.take(i as int))),
            decreases result.content.len() - i,
        {
            assert(result.content@.take(i + 1).drop_last() =~= result.content@.take(i as int));
            let ghost texts = block_texts(result.content@.take(i as int));
            match &result.content[i] {
                ResultContentBlock::Text { text } => {
                    r.append(text.as_str());
                    assert(block_texts(result.content@.take(i + 1)) =~= texts.push(text@));
                    assert(texts.push(text@).drop_last() =~= texts);
                },
                _ => {
                    assert(block_texts(result.content@.take(i + 1)) =~= texts);
                },
            }
            i = i + 1;
        }
        assert(result.content@.take(result.content@.len() as int) =~= result.content@);
        r
    }
}

impl<B: AgentBackend> Tool for AgentTool<B> {
    open spec fn spec_name(&self) -> Seq<char> {
        "agent"@
    }

    open spec fn spec_aliases(&self) -> Seq<Seq<char>> {
        seq!["subagent"@]
    }

    open spec fn spec_description(&self) -> Seq<char> {
        "Spawn a sub-agent to handle a sub-task. Returns the agent's final output."@
    }

    fn name(&self) -> (r: &str) {
        "agent"
    }

    fn aliases(&self) -> (r: Vec<String>) {
        let r: Vec<String> = vec![owned("subagent")];
        assert(views(r@) =~= seq!["subagent"@]);
        r
    }

    fn description(&self) -> (r: String) {
        owned("Spawn a sub-agent to handle a sub-task. Returns the agent's final output.")
    }
}

} // verus!
