//! WebSearch tool: search the web through DuckDuckGo's HTML page.

use vstd::prelude::*;
use vstd::utf8::*;
use crate::error::CliError;
use crate::ext::{build_http_client, percent_encoded, regex_capture1, regex_compile, regex_compiles,
    regex_group1, url_encode, RegexPattern};
use crate::text::{contains_seq, join, join_seq, lines, lines_of, owned, str_contains, str_views, views};
use crate::types::tool::{text_blocks, ResultContentBlock, Tool, ToolMetrics, ToolResult};

verus! {

/// The arguments of a WebSearch call.
pub struct WebSearchInput {
    pub query: String,
    pub source: Option<String>,
}

/// The expression that finds a result's title.
pub open spec fn title_pattern() -> Seq<char> {
    "<a class=\"result__a\"[^>]*>([^<]+)</a>"@
}

/// The expression that finds a result's link.
pub open spec fn link_pattern() -> Seq<char> {
    "href=\"([^\"]+)\""@
}

/// The first group of the first match of `p` in `line`, or the empty
/// text; the empty text also when `p` does not compile.
pub open spec fn captured(p: Seq<char>, line: Seq<char>) -> Seq<char> {
    if regex_compiles(p) {
        match regex_group1(p, line) {
            Some(t) => t,
            None => seq![],
        }
    } else {
        seq![]
    }
}

/// The result line found on a line of the page, if any: lines that mark a
/// result and hold both a title and a link give "- <title> (<link>)".
pub open spec fn result_line(line: Seq<char>) -> Option<Seq<char>> {
    if contains_seq(line, "result__title"@) || contains_seq(line, "web-result"@) {
        let title = captured(title_pattern(), line);
        let link = captured(link_pattern(), line);
        if title.len() > 0 && link.len() > 0 {
            Some("- "@ + title + " ("@ + link + ")"@)
        } else {
            None
        }
    } else {
        None
    }
}

/// The result lines found on the first `n` lines of the page, in order.
pub open spec fn page_results(lines: Seq<Seq<char>>, n: int) -> Seq<Seq<char>>
    decreases n,
{
    if n <= 0 {
        seq![]
    } else {
        page_results(lines, n - 1) + match result_line(lines[n - 1]) {
            Some(r) => seq![r],
            None => seq![],
        }
    }
}

/// The text reported for a query and the result lines found.
pub open spec fn search_report(query: Seq<char>, results: Seq<Seq<char>>) -> Seq<char> {
    if results.len() == 0 {
        "Search results for: "@ + query + "\n\nNo structured results found. Try using WebFetch directly."@
    } else {
        "Search results for: "@ + query + "\n\n"@ + join_seq(results, "\n"@) + "\n\n(Results from DuckDuckGo)"@
    }
}

/// The search page address for a query.
pub open spec fn search_address(query: Seq<char>) -> Seq<char> {
    "https://html.duckduckgo.com/html/?q="@ + percent_encoded(encode_utf8(query)) + "&kl=us-en"@
}

/// `captured`, computed with an expression that may have failed to
/// compile.
fn capture_or_empty(re: &Option<RegexPattern>, line: &str) -> (r: String)
    ensures
        re matches Some(g) ==> r@ == match regex_group1(g.source(), line@) {
            Some(t) => t,
            None => seq![],
        },
        re is None ==> r@ == Seq::<char>::empty(),
{
    match re {
        Some(g) => match regex_capture1(g, line) {
            Some(t) => t,
            None => String::new(),
        },
        None => String::new(),
    }
}

/// The result lines found on a search page, in order.
pub fn extract_results(body: &str) -> (r: Vec<String>)
    ensures
        views(r@) == page_results(lines_of(body@), lines_of(body@).len() as int),
{
    let title_re = match regex_compile("<a class=\"result__a\"[^>]*>([^<]+)</a>") {
        Ok(g) => Some(g),
        Err(_) => None,
    };
    let link_re = match regex_compile("href=\"([^\"]+)\"") {
        Ok(g) => Some(g),
        Err(_) => None,
    };
    let all = lines(body);
    let ghost ls = lines_of(body@);
    let mut results: Vec<String> = Vec::new();
    let mut i: usize = 0;
    while i < all.len()
        invariant
            i <= all@.len(),
            str_views(all@) == ls,
            title_re is Some == regex_compiles(title_pattern()),
            title_re matches Some(g) ==> g.source() == title_pattern(),
            link_re is Some == regex_compiles(link_pattern()),
            link_re matches Some(g) ==> g.source() == link_pattern(),
            views(results@) == page_results(ls, i as int),
        decreases all.len() - i,
    {
        let line = all[i];
        assert(line@ == ls[i as int]);
        if str_contains(line, "result__title") || str_contains(line, "web-result") {
            let title = capture_or_empty(&title_re, line);
            let link = capture_or_empty(&link_re, line);
            if !title.as_str().is_empty() && !link.as_str().is_empty() {
                let mut t = owned("- ");
                t.append(title.as_str());
                t.append(" (");
                t.append(link.as_str());
                t.append(")");
                let ghost before = results@;
                results.push(t);
                assert(views(results@) =~= views(before).push(t@));
            }
        }
        assert(views(results@) =~= page_results(ls, i + 1));
        i = i + 1;
    }
    results
}

/// Searches the web.
pub struct WebSearchTool {
    http_client: reqwest::Client,
}

/// Seconds after which a request of the tool gives up.
pub const REQUEST_TIMEOUT_SECS: u64 = 30;

impl WebSearchTool {
    /// A tool whose client times out after 30 seconds.
    pub fn new() -> (r: Self) {
        WebSearchTool { http_client: build_http_client(REQUEST_TIMEOUT_SECS) }
    }

    /// The User-Agent header a request of the tool carries, for the
    /// product named `product`.
    pub fn user_agent(&self, product: &str) -> (r: String)
        ensures
            r@ == "Mozilla/5.0 (compatible; "@ + product@ + " CLI/2.0)"@,
    {
        let mut r = owned("Mozilla/5.0 (compatible; ");
        r.append(product);
        r.append(" CLI/2.0)");
        r
    }

    /// The client the tool searches with.
    pub closed spec fn client(&self) -> reqwest::Client {
        self.http_client
    }

    /// The client the tool searches with.
    pub fn http_client(&self) -> (r: &reqwest::Client)
        ensures
            *r == self.client(),
    {
        &self.http_client
    }

    /// The search page address for a call's query.
    pub fn search_url(&self, input: &WebSearchInput) -> (r: String)
        ensures
            r@ == search_address(input.query@),
    {
        let mut u = owned("https://html.duckduckgo.com/html/?q=");
        let q = url_encode(input.query.as_str());
        u.append(q.as_str());
        u.append("&kl=us-en");
        u
    }

    /// The error for a request that could not be sent.
    pub fn send_error(&self, e: &str) -> (r: CliError)
        ensures
            r matches CliError::ToolExecution(m) && m@ == "search failed: "@ + e@,
    {
        let mut m = owned("search failed: ");
        m.append(e);
        CliError::ToolExecution(m)
    }

    /// The error for a body that could not be read.
    pub fn read_error(&self, e: &str) -> (r: CliError)
        ensures
            r matches CliError::ToolExecution(m) && m@ == "failed to read response: "@ + e@,
    {
        let mut m = owned("failed to read response: ");
        m.append(e);
        CliError::ToolExecution(m)
    }

    /// The failed result for a response whose status is not a success:
    /// "Search failed: HTTP <status>"; `None` for a successful response.
    pub fn check_status(&self, success: bool, status: &str) -> (r: Option<ToolResult>)
        ensures
            r is Some == !success,
            r matches Some(res) ==> res.is_error && res.metrics is None
                && text_blocks(res.content@, seq!["Search failed: HTTP "@ + status@]),
    {
        if success {
            None
        } else {
            let mut t = owned("Search failed: HTTP ");
            t.append(status);
            Some(ToolResult::error(t))
        }
    }

    /// The result for a search page: the result lines found on it under the
    /// query, or a note that none were found.
    pub fn report(&self, input: &WebSearchInput, body: &str, duration_ms: u64) -> (r: ToolResult)
        ensures
            !r.is_error,
            r.metrics == Some(ToolMetrics { duration_ms, tokens_used: None }),
            text_blocks(r.content@, seq![search_report(input.query@,
                page_results(lines_of(body@), lines_of(body@).len() as int))]),
    {
        let results = extract_results(body);
        let mut t = owned("Search results for: ");
        t.append(input.query.as_str());
        if results.len() == 0 {
            t.append("\n\nNo structured results found. Try using WebFetch directly.");
        } else {
            t.append("\n\n");
            let joined = join(&results, "\n");
            t.append(joined.as_str());
            t.append("\n\n(Results from DuckDuckGo)");
        }
        ToolResult {
            content: vec![ResultContentBlock::Text { text: t }],
            is_error: false,
            metrics: Some(ToolMetrics { duration_ms, tokens_used: None }),
        }
    }

    /// The line shown when the tool is used; `None` when the arguments did
    /// not parse.
    pub fn render_use_message(&self, input: Option<&WebSearchInput>) -> (r: String)
        ensures
            r@ == match input {
                Some(i) => "Searching web for: "@ + i.query@,
                None => "Searching the web"@,
            },
    {
        match input {
            Some(i) => {
                let mut r = owned("Searching web for: ");
                r.append(i.query.as_str());
                r
            },
            None => owned("Searching the web"),
        }
    }
}

impl Default for WebSearchTool {
    fn default() -> (r: Self) {
        WebSearchTool::new()
    }
}

impl Tool for WebSearchTool {
    open spec fn spec_name(&self) -> Seq<char> {
        "WebSearch"@
    }

    open spec fn spec_aliases(&self) -> Seq<Seq<char>> {
        seq!["search"@, "google"@, "bing"@]
    }

    open spec fn spec_description(&self) -> Seq<char> {
        "Search the web for information."@
    }

    fn name(&self) -> (r: &str) {
        "WebSearch"
    }

    fn aliases(&self) -> (r: Vec<String>) {
        let r: Vec<String> = vec![owned("search"), owned("google"), owned("bing")];
        assert(views(r@) =~= seq!["search"@, "google"@, "bing"@]);
        r
    }

    fn description(&self) -> (r: String) {
        owned("Search the web for information.")
    }
}

} // verus!
