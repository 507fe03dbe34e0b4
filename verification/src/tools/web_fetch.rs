//! WebFetch tool: fetch a URL and report its content.

use vstd::prelude::*;
use vstd::utf8::*;
use crate::error::CliError;
use crate::ext::{build_http_client, json_pretty, json_pretty_text};
use crate::text::{byte_len, byte_prefix, contains_seq, cut_ok, decimal, owned, prefix_bytes, str_byte_len,
    str_contains, u64_to_decimal, views};
use crate::types::tool::{text_blocks, ResultContentBlock, Tool, ToolMetrics, ToolResult};

verus! {

/// The arguments of a WebFetch call.
pub struct WebFetchInput {
    pub url: String,
    pub prompt: Option<String>,
}

/// The text a fetched body is shown as: pretty-printed when the content
/// type says JSON and the body parses, else the body as it came.
pub open spec fn fetched_text(content_type: Seq<char>, body: Seq<char>) -> Seq<char> {
    if contains_seq(content_type, "application/json"@) {
        match json_pretty_text(body) {
            Some(t) => t,
            None => body,
        }
    } else {
        body
    }
}

/// A text of more than 50 000 bytes cut to its first 50 000, with a note
/// of its full length in bytes.
pub open spec fn truncated_text(text: Seq<char>) -> Seq<char> {
    if byte_len(text) > 50_000 {
        byte_prefix(text, 50_000) + "...\n\n(Output truncated - "@ + decimal(byte_len(text) as nat)
            + " chars total)"@
    } else {
        text
    }
}

/// Law: a body is shown as it came unless the content type says JSON and
/// the body parses, in which case it is shown pretty-printed; a text of at
/// most 50 000 bytes is shown whole, and a longer one is cut to its first
/// 50 000 bytes, followed by a note that gives its full length.
pub proof fn lemma_fetched_text(content_type: Seq<char>, body: Seq<char>, text: Seq<char>)
    ensures
        !contains_seq(content_type, "application/json"@) ==> fetched_text(content_type, body) == body,
        json_pretty_text(body) is None ==> fetched_text(content_type, body) == body,
        contains_seq(content_type, "application/json"@) && json_pretty_text(body) is Some
            ==> fetched_text(content_type, body) == json_pretty_text(body)->0,
        byte_len(text) <= 50_000 ==> truncated_text(text) == text,
        byte_len(text) > 50_000 ==> {
            let cut = byte_prefix(text, 50_000);
            let note = "...\n\n(Output truncated - "@ + decimal(byte_len(text) as nat) + " chars total)"@;
            &&& truncated_text(text).take(cut.len() as int) == cut
            &&& truncated_text(text).skip(cut.len() as int) == note
        },
{
    if byte_len(text) > 50_000 {
        let cut = byte_prefix(text, 50_000);
        let note = "...\n\n(Output truncated - "@ + decimal(byte_len(text) as nat) + " chars total)"@;
        assert((cut + note).take(cut.len() as int) =~= cut);
        assert((cut + note).skip(cut.len() as int) =~= note);
    }
}

/// Fetches URLs.
pub struct WebFetchTool {
    http_client: reqwest::Client,
}

/// Seconds after which a request of the tool gives up.
pub const REQUEST_TIMEOUT_SECS: u64 = 30;

impl WebFetchTool {
    /// A tool whose client times out after 30 seconds.
    pub fn new() -> (r: Self) {
        WebFetchTool { http_client: build_http_client(REQUEST_TIMEOUT_SECS) }
    }

    /// The User-Agent header a request of the tool carries, for the
    /// product named `product`.
    pub fn user_agent(&self, product: &str) -> (r: String)
        ensures
            r@ == product@ + " CLI/2.0"@,
    {
        let mut r = owned(product);
        r.append(" CLI/2.0");
        r
    }

    /// The client the tool fetches with.
    pub closed spec fn client(&self) -> reqwest::Client {
        self.http_client
    }

    /// The client the tool fetches with.
    pub fn http_client(&self) -> (r: &reqwest::Client)
        ensures
            *r == self.client(),
    {
        &self.http_client
    }

    /// The error for a request that could not be sent.
    pub fn fetch_error(&self, e: &str) -> (r: CliError)
        ensures
            r matches CliError::ToolExecution(m) && m@ == "fetch failed: "@ + e@,
    {
        let mut m = owned("fetch failed: ");
        m.append(e);
        CliError::ToolExecution(m)
    }

    /// The error for a body that could not be read.
    pub fn read_error(&self, e: &str) -> (r: CliError)
        ensures
            r matches CliError::ToolExecution(m) && m@ == "failed to read response: "@ + e@,
    {
        let mut m = owned("failed to read response: ");
        m.append(e);
        CliError::ToolExecution(m)
    }

    /// The failed result for a response whose status is not a success:
    /// "HTTP error: <status>"; `None` for a successful response.
    pub fn check_status(&self, success: bool, status: &str) -> (r: Option<ToolResult>)
        ensures
            r is Some == !success,
            r matches Some(res) ==> res.is_error && res.metrics is None
                && text_blocks(res.content@, seq!["HTTP error: "@ + status@]),
    {
        if success {
            None
        } else {
            let mut t = owned("HTTP error: ");
            t.append(status);
            Some(ToolResult::error(t))
        }
    }

    /// The text a fetched body is shown as, given the response's content
    /// type.
    pub fn body_text(&self, content_type: &str, body: String) -> (r: String)
        ensures
            r@ == fetched_text(content_type@, body@),
    {
        if str_contains(content_type, "application/json") {
            match json_pretty(body.as_str()) {
                Some(t) => t,
                None => body,
            }
        } else {
            body
        }
    }

    /// The result holding `text`, cut after 50 000 bytes. The cut must fall
    /// between characters.
    pub fn output(&self, text: String, duration_ms: u64) -> (r: ToolResult)
        requires
            cut_ok(text@, 50_000),
        ensures
            !r.is_error,
            r.metrics == Some(ToolMetrics { duration_ms, tokens_used: None }),
            text_blocks(r.content@, seq![truncated_text(text@)]),
    {
        let n = str_byte_len(text.as_str());
        let shown = if n > 50_000 {
            let mut t = owned(prefix_bytes(text.as_str(), 50_000));
            t.append("...\n\n(Output truncated - ");
            let len = u64_to_decimal(n as u64);
            t.append(len.as_str());
            t.append(" chars total)");
            t
        } else {
            text
        };
        ToolResult {
            content: vec![ResultContentBlock::Text { text: shown }],
            is_error: false,
            metrics: Some(ToolMetrics { duration_ms, tokens_used: None }),
        }
    }

    /// The result for a fetched body with the given content type; `None`
    /// when the text is over 50 000 bytes and the cut would split a
    /// character.
    pub fn fetched(&self, content_type: &str, body: String, duration_ms: u64) -> (r: Option<ToolResult>)
        ensures
            r is Some == cut_ok(fetched_text(content_type@, body@), 50_000),
            r matches Some(res) ==> {
                &&& !res.is_error
                &&& res.metrics == Some(ToolMetrics { duration_ms, tokens_used: None })
                &&& text_blocks(res.content@, seq![truncated_text(fetched_text(content_type@, body@))])
            },
    {
        let text = self.body_text(content_type, body);
        if str_byte_len(text.as_str()) > 50_000 && !text.as_str().is_char_boundary(50_000) {
            return None;
        }
        Some(self.output(text, duration_ms))
    }

    /// The line shown when the tool is used; `None` when the arguments did
    /// not parse.
    pub fn render_use_message(&self, input: Option<&WebFetchInput>) -> (r: String)
        ensures
            r@ == match input {
                Some(i) => "Fetching: "@ + i.url@,
                None => "Fetching URL"@,
            },
    {
        match input {
            Some(i) => {
                let mut r = owned("Fetching: ");
                r.append(i.url.as_str());
                r
            },
            None => owned("Fetching URL"),
        }
    }
}

impl Default for WebFetchTool {
    fn default() -> (r: Self) {
        WebFetchTool::new()
    }
}

impl Tool for WebFetchTool {
    open spec fn spec_name(&self) -> Seq<char> {
        "WebFetch"@
    }

    open spec fn spec_aliases(&self) -> Seq<Seq<char>> {
        seq!["fetch"@, "http"@, "url"@]
    }

    open spec fn spec_description(&self) -> Seq<char> {
        "Fetch content from a URL (GET request). Returns the page content."@
    }

    fn name(&self) -> (r: &str) {
        "WebFetch"
    }

    fn aliases(&self) -> (r: Vec<String>) {
        let r: Vec<String> = vec![owned("fetch"), owned("http"), owned("url")];
        assert(views(r@) =~= seq!["fetch"@, "http"@, "url"@]);
        r
    }

    fn description(&self) -> (r: String) {
        owned("Fetch content from a URL (GET request). Returns the page content.")
    }
}

} // verus!
