//! Grep tool: search file contents with a regular expression.

use vstd::prelude::*;
use crate::ext::{regex_compile, regex_error_text, regex_is_match, regex_match, regex_compiles, RegexPattern};
use crate::text::{decimal, join, join_seq, lines, lines_of, owned, str_views, u64_to_decimal, views};
use crate::types::tool::{text_blocks, ResultContentBlock, Tool, ToolMetrics, ToolResult};

verus! {

/// The arguments of a Grep call.
pub struct GrepInput {
    pub pattern: String,
    pub path: Option<String>,
    pub case_sensitive: bool,
    pub include_files: Option<String>,
    pub max_results: Option<usize>,
    pub context: Option<usize>,
}

/// The regular expression a call searches with: the pattern itself when
/// the search is case sensitive, else the pattern behind "(?i)".
pub open spec fn search_pattern(input: GrepInput) -> Seq<char> {
    if input.case_sensitive {
        input.pattern@
    } else {
        "(?i)"@ + input.pattern@
    }
}

/// Law: a case-sensitive search uses the pattern as given, and a search
/// that is not case-sensitive uses the same pattern behind "(?i)".
pub proof fn lemma_search_pattern(sensitive: GrepInput, insensitive: GrepInput)
    requires
        sensitive.case_sensitive,
        !insensitive.case_sensitive,
        sensitive.pattern@ == insensitive.pattern@,
    ensures
        search_pattern(sensitive) == sensitive.pattern@,
        search_pattern(insensitive) == "(?i)"@ + search_pattern(sensitive),
{
}

/// "<n>: <line>".
pub open spec fn numbered(n: nat, line: Seq<char>) -> Seq<char> {
    decimal(n) + ": "@ + line
}

/// The `count` lines before index `i`, nearest first, each numbered from 1.
pub open spec fn lines_before(lines: Seq<Seq<char>>, i: int, count: int) -> Seq<Seq<char>> {
    Seq::new(count as nat, |k: int| numbered((i - k) as nat, lines[i - 1 - k]))
}

/// The text reported for a match on line index `i` of the file at `path`:
/// "<path>:<line number>: <line>", after up to `ctx` lines of context
/// before it (nearest first).
pub open spec fn match_text(path: Seq<char>, lines: Seq<Seq<char>>, i: int, ctx: int) -> Seq<char> {
    let start = if i >= ctx { i - ctx } else { 0 };
    let main = path + ":"@ + decimal((i + 1) as nat) + ": "@ + lines[i];
    if start < i {
        join_seq(lines_before(lines, i, i - start), "\n"@) + "\n"@ + main
    } else {
        main
    }
}

/// The reports for the matching lines among the first `n` lines of a file,
/// in order.
pub open spec fn file_hits(p: Seq<char>, path: Seq<char>, lines: Seq<Seq<char>>, ctx: int, n: int) -> Seq<Seq<char>>
    decreases n,
{
    if n <= 0 {
        seq![]
    } else {
        file_hits(p, path, lines, ctx, n - 1) + (if regex_match(p, lines[n - 1]) {
            seq![match_text(path, lines, n - 1, ctx)]
        } else {
            seq![]
        })
    }
}

/// The reports of a search after a file's hits were added to `found`: all
/// of them, or as many as fit below `max`.
pub open spec fn add_hits(found: Seq<Seq<char>>, hits: Seq<Seq<char>>, max: int) -> Seq<Seq<char>> {
    if found.len() + hits.len() <= max {
        found + hits
    } else {
        found + hits.take(max - found.len())
    }
}

/// The hits among fewer lines are the first hits among more lines.
pub proof fn lemma_file_hits_prefix(p: Seq<char>, path: Seq<char>, lines: Seq<Seq<char>>, ctx: int, i: int, j: int)
    requires
        0 <= i <= j,
    ensures
        file_hits(p, path, lines, ctx, i).len() <= file_hits(p, path, lines, ctx, j).len(),
        file_hits(p, path, lines, ctx, j).take(file_hits(p, path, lines, ctx, i).len() as int)
            =~= file_hits(p, path, lines, ctx, i),
    decreases j - i,
{
    if i < j {
        lemma_file_hits_prefix(p, path, lines, ctx, i, j - 1);
        let a = file_hits(p, path, lines, ctx, i);
        let b = file_hits(p, path, lines, ctx, j - 1);
        let c = file_hits(p, path, lines, ctx, j);
        assert(c.take(a.len() as int) =~= b.take(a.len() as int));
    }
}

/// The reports of every matching line of the files (each a path and its
/// content), file after file.
pub open spec fn all_hits(p: Seq<char>, files: Seq<(Seq<char>, Seq<char>)>, ctx: int) -> Seq<Seq<char>>
    decreases files.len(),
{
    if files.len() == 0 {
        seq![]
    } else {
        let f = files.last();
        all_hits(p, files.drop_last(), ctx) + file_hits(p, f.0, lines_of(f.1), ctx, lines_of(f.1).len() as int)
    }
}

/// The reports of a search with at most `max` reports, started empty,
/// once the files were added one after the other (see
/// `GrepSearch::add_file`; adding a file to a full search leaves it as it
/// is).
pub open spec fn search_reports(p: Seq<char>, files: Seq<(Seq<char>, Seq<char>)>, ctx: int, max: int) -> Seq<Seq<char>>
    decreases files.len(),
{
    if files.len() == 0 {
        seq![]
    } else {
        let f = files.last();
        add_hits(
            search_reports(p, files.drop_last(), ctx, max),
            file_hits(p, f.0, lines_of(f.1), ctx, lines_of(f.1).len() as int),
            max,
        )
    }
}

/// Law: a search reports the matching lines of all its files, in file
/// order and line order, cut to its limit.
pub proof fn lemma_search_reports(p: Seq<char>, files: Seq<(Seq<char>, Seq<char>)>, ctx: int, max: int)
    requires
        max >= 0,
    ensures
        search_reports(p, files, ctx, max) == if all_hits(p, files, ctx).len() <= max {
            all_hits(p, files, ctx)
        } else {
            all_hits(p, files, ctx).take(max)
        },
    decreases files.len(),
{
    if files.len() > 0 {
        let init = files.drop_last();
        let f = files.last();
        lemma_search_reports(p, init, ctx, max);
        let a = all_hits(p, init, ctx);
        let h = file_hits(p, f.0, lines_of(f.1), ctx, lines_of(f.1).len() as int);
        let prev = search_reports(p, init, ctx, max);
        if a.len() + h.len() <= max {
            assert(prev == a);
        } else if a.len() <= max {
            assert(prev == a);
            assert(prev + h.take(max - prev.len()) =~= (a + h).take(max));
        } else {
            assert(prev == a.take(max));
            assert(prev + h.take(max - prev.len()) =~= (a + h).take(max));
        }
    }
}

/// A search in progress: the expression, the limits, and the reports so
/// far.
pub struct GrepSearch {
    regex: RegexPattern,
    max_results: usize,
    context_lines: usize,
    results: Vec<String>,
}

impl GrepSearch {
    /// The text of the expression searched with.
    pub closed spec fn pattern(&self) -> Seq<char> {
        self.regex.source()
    }

    /// How many reports the search may hold.
    pub closed spec fn limit(&self) -> usize {
        self.max_results
    }

    /// How many lines before a match each report shows.
    pub closed spec fn context(&self) -> usize {
        self.context_lines
    }

    /// The reports so far, in order.
    pub closed spec fn reports(&self) -> Seq<Seq<char>> {
        views(self.results@)
    }

    /// How many reports the search may hold.
    pub fn max_results(&self) -> (r: usize)
        ensures
            r == self.limit(),
    {
        self.max_results
    }

    /// Whether the search has as many reports as it may hold.
    pub fn is_done(&self) -> (r: bool)
        ensures
            r == (self.reports().len() >= self.limit()),
    {
        self.results.len() >= self.max_results
    }

    /// Searches the lines of one file, adding a report for each matching
    /// line until the limit is reached.
    pub fn add_file(&mut self, path: &str, content: &str)
        requires
            old(self).reports().len() < old(self).limit(),
        ensures
            final(self).pattern() == old(self).pattern(),
            final(self).limit() == old(self).limit(),
            final(self).context() == old(self).context(),
            final(self).reports() == add_hits(
                old(self).reports(),
                file_hits(old(self).pattern(), path@, lines_of(content@),
                    old(self).context() as int, lines_of(content@).len() as int),
                old(self).limit() as int,
            ),
    {
        let all = lines(content);
        let ghost ls = lines_of(content@);
        let ghost p = self.regex.source();
        let ghost ctx = self.context_lines as int;
        let ghost before = views(self.results@);
        let mut i: usize = 0;
        while i < all.len() && self.results.len() < self.max_results
            invariant
                str_views(all@) == ls,
                i <= all.len(),
                self.regex == old(self).regex,
                self.max_results == old(self).max_results,
                self.context_lines == old(self).context_lines,
                p == self.regex.source(),
                ctx == self.context_lines as int,
                before == views(old(self).results@),
                views(self.results@) == before + file_hits(p, path@, ls, ctx, i as int),
                self.results@.len() <= self.max_results,
            decreases all.len() - i,
        {
            let line = all[i];
            assert(line@ == ls[i as int]);
            let ghost old_results = self.results@;
            if regex_is_match(&self.regex, line) {
                let text = self.report(path, &all, i);
                self.results.push(text);
                assert(views(self.results@) =~= views(old_results).push(text@));
            }
            assert(views(self.results@) =~= before + file_hits(p, path@, ls, ctx, i + 1));
            i = i + 1;
        }
        proof {
            let n = ls.len() as int;
            lemma_file_hits_prefix(p, path@, ls, ctx, i as int, n);
            let h = file_hits(p, path@, ls, ctx, n);
            if i < all.len() {
                assert(h.take(file_hits(p, path@, ls, ctx, i as int).len() as int)
                    =~= file_hits(p, path@, ls, ctx, i as int));
            } else {
                assert(i as int == n);
            }
        }
    }

    /// The report for the match on line index `i`.
    fn report(&self, path: &str, all: &Vec<&str>, i: usize) -> (r: String)
        requires
            i < all@.len(),
        ensures
            r@ == match_text(path@, str_views(all@), i as int, self.context_lines as int),
    {
        let ghost ls = str_views(all@);
        let start: usize = if i >= self.context_lines { i - self.context_lines } else { 0 };
        let mut main = owned(path);
        main.append(":");
        let n = all.len();
        assert(i < n);
        let line_no: usize = i + 1;
        let num = u64_to_decimal(line_no as u64);
        main.append(num.as_str());
        main.append(": ");
        main.append(all[i]);
        if start < i {
            let count = i - start;
            let mut before: Vec<String> = Vec::new();
            let mut k: usize = 0;
            while k < count
                invariant
                    k <= count,
                    count == i - start,
                    start < i < all@.len(),
                    ls == str_views(all@),
                    views(before@) =~= lines_before(ls, i as int, count as int).take(k as int),
                decreases count - k,
            {
                let mut t = u64_to_decimal((i - k) as u64);
                t.append(": ");
                t.append(all[i - 1 - k]);
                assert(t@ == numbered((i - k) as nat, ls[i - 1 - k]));
                let ghost old_before = before@;
                before.push(t);
                assert(views(before@) =~= views(old_before).push(t@));
                k = k + 1;
            }
            assert(lines_before(ls, i as int, count as int).take(count as int)
                =~= lines_before(ls, i as int, count as int));
            let mut r = join(&before, "\n");
            r.append("\n");
            r.append(main.as_str());
            r
        } else {
            main
        }
    }

    /// The result of the finished search: one text block per report, or
    /// "No matches found." when there is none.
    pub fn finish(self, duration_ms: u64) -> (r: ToolResult)
        ensures
            !r.is_error,
            r.metrics == Some(ToolMetrics { duration_ms, tokens_used: None }),
            text_blocks(r.content@, if self.reports().len() == 0 {
                seq!["No matches found."@]
            } else {
                self.reports()
            }),
    {
        let mut content: Vec<ResultContentBlock> = Vec::new();
        if self.results.len() == 0 {
            content.push(ResultContentBlock::Text { text: owned("No matches found.") });
        } else {
            let results = self.results;
            let mut i: usize = 0;
            while i < results.len()
                invariant
                    i <= results.len(),
                    text_blocks(content@, views(results@).take(i as int)),
                decreases results.len() - i,
            {
                content.push(ResultContentBlock::Text { text: results[i].clone() });
                i = i + 1;
            }
            assert(views(results@).take(results.len() as int) =~= views(results@));
        }
        ToolResult { content, is_error: false, metrics: Some(ToolMetrics { duration_ms, tokens_used: None }) }
    }
}

/// Searches file contents with a regular expression.
pub struct GrepTool;

impl GrepTool {
    pub fn new() -> (r: Self) {
        GrepTool
    }

    /// The regular expression a call searches with.
    pub fn pattern_for(&self, input: &GrepInput) -> (r: String)
        ensures
            r@ == search_pattern(*input),
    {
        if input.case_sensitive {
            input.pattern.clone()
        } else {
            let mut p = owned("(?i)");
            p.append(input.pattern.as_str());
            p
        }
    }

    /// Starts a search: at most `max_results` reports (100 unless the call
    /// says otherwise) with `context` lines before each (none unless the
    /// call says otherwise). When the expression does not compile, the
    /// failed result "invalid regex: <error>" instead.
    pub fn start(&self, input: &GrepInput) -> (r: Result<GrepSearch, ToolResult>)
        ensures
            r is Ok == regex_compiles(search_pattern(*input)),
            r matches Ok(s) ==> {
                &&& s.pattern() == search_pattern(*input)
                &&& s.limit() == match input.max_results { Some(m) => m, None => 100 }
                &&& s.context() == match input.context { Some(c) => c, None => 0 }
                &&& s.reports().len() == 0
            },
            r matches Err(res) ==> res.is_error && res.metrics is None && text_blocks(res.content@,
                seq!["invalid regex: "@ + regex_error_text(search_pattern(*input))]),
    {
        let pattern = self.pattern_for(input);
        match regex_compile(pattern.as_str()) {
            Ok(regex) => {
                let max_results = match input.max_results { Some(m) => m, None => 100 };
                let context_lines = match input.context { Some(c) => c, None => 0 };
                Ok(GrepSearch { regex, max_results, context_lines, results: Vec::new() })
            },
            Err(e) => {
                let mut t = owned("invalid regex: ");
                t.append(e.as_str());
                Err(ToolResult::error(t))
            },
        }
    }

    /// The line shown when the tool is used; `None` when the arguments did
    /// not parse.
    pub fn render_use_message(&self, input: Option<&GrepInput>) -> (r: String)
        ensures
            r@ == match input {
                Some(i) => "Searching for: "@ + i.pattern@,
                None => "Searching files"@,
            },
    {
        match input {
            Some(i) => {
                let mut r = owned("Searching for: ");
                r.append(i.pattern.as_str());
                r
            },
            None => owned("Searching files"),
        }
    }
}

impl Default for GrepTool {
    fn default() -> (r: Self) {
        GrepTool::new()
    }
}

impl Tool for GrepTool {
    open spec fn spec_name(&self) -> Seq<char> {
        "Grep"@
    }

    open spec fn spec_aliases(&self) -> Seq<Seq<char>> {
        seq!["grep"@, "search"@, "find"@]
    }

    open spec fn spec_description(&self) -> Seq<char> {
        "Search for a pattern in files using regex."@
    }

    open spec fn spec_read_only(&self) -> bool {
        true
    }

    fn name(&self) -> (r: &str) {
        "Grep"
    }

    fn aliases(&self) -> (r: Vec<String>) {
        let r: Vec<String> = vec![owned("grep"), owned("search"), owned("find")];
        assert(views(r@) =~= seq!["grep"@, "search"@, "find"@]);
        r
    }

    fn description(&self) -> (r: String) {
        owned("Search for a pattern in files using regex.")
    }

    fn is_read_only(&self) -> (r: bool)
        ensures
            r,
    {
        true
    }
}

} // verus!
