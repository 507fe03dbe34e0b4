//! Glob tool: find files whose paths match a glob pattern.

use vstd::prelude::*;
use crate::error::CliError;
use crate::ext::{glob_compile, glob_compiles, glob_error_text, glob_match, glob_matches, GlobPattern};
use crate::text::{decimal, join, join_seq, owned, sort_strings, sorted_strings, u64_to_decimal, views};
use crate::types::tool::{text_blocks, ResultContentBlock, Tool, ToolMetrics, ToolResult};

verus! {

/// The arguments of a Glob call.
pub struct GlobInput {
    pub pattern: String,
    pub path: Option<String>,
    pub max_results: Option<usize>,
}

/// One entry met while walking the search directory.
pub struct WalkEntry {
    /// Whether the entry is a regular file.
    pub is_file: bool,
    /// The entry's full path, as displayed.
    pub path: String,
    /// The entry's path below the search directory, when it lies below it.
    pub relative: Option<String>,
}

/// An entry is reported when it is a file below the search directory and
/// the pattern matches its relative path or its full path.
pub open spec fn entry_hit(p: Seq<char>, e: WalkEntry) -> bool {
    &&& e.is_file
    &&& e.relative matches Some(rel) && (glob_match(p, rel@) || glob_match(p, e.path@))
}

/// The relative paths reported among the first `n` entries, in walk order,
/// stopping once `max` were found.
pub open spec fn glob_hits(p: Seq<char>, entries: Seq<WalkEntry>, max: int, n: int) -> Seq<Seq<char>>
    decreases n,
{
    if n <= 0 {
        seq![]
    } else {
        let prev = glob_hits(p, entries, max, n - 1);
        if prev.len() < max && entry_hit(p, entries[n - 1]) {
            prev.push(entries[n - 1].relative->Some_0@)
        } else {
            prev
        }
    }
}

/// Law: each path a search reports is the relative path of a walked
/// entry that is a regular file below the search directory and that the
/// pattern matches; at most `max` paths are reported.
pub proof fn lemma_glob_hits_are_files(p: Seq<char>, entries: Seq<WalkEntry>, max: int, n: int)
    requires
        0 <= n <= entries.len(),
        0 <= max,
    ensures
        glob_hits(p, entries, max, n).len() <= max,
        forall|k: int| 0 <= k < glob_hits(p, entries, max, n).len() ==> exists|i: int| {
            &&& 0 <= i < n
            &&& entries[i].is_file
            &&& entries[i].relative matches Some(rel) && rel@ == #[trigger] glob_hits(p, entries, max, n)[k]
            &&& glob_match(p, entries[i].relative->Some_0@) || glob_match(p, entries[i].path@)
        },
    decreases n,
{
    if n > 0 {
        lemma_glob_hits_are_files(p, entries, max, n - 1);
        let prev = glob_hits(p, entries, max, n - 1);
        let cur = glob_hits(p, entries, max, n);
        assert forall|k: int| 0 <= k < cur.len() implies exists|i: int| {
            &&& 0 <= i < n
            &&& entries[i].is_file
            &&& entries[i].relative matches Some(rel) && rel@ == #[trigger] cur[k]
            &&& glob_match(p, entries[i].relative->Some_0@) || glob_match(p, entries[i].path@)
        } by {
            if k < prev.len() {
                assert(cur[k] == prev[k]);
                let i = choose|i: int| {
                    &&& 0 <= i < n - 1
                    &&& entries[i].is_file
                    &&& entries[i].relative matches Some(rel) && rel@ == #[trigger] prev[k]
                    &&& glob_match(p, entries[i].relative->Some_0@) || glob_match(p, entries[i].path@)
                };
                assert(0 <= i < n);
            } else {
                assert(k == prev.len());
                assert(entry_hit(p, entries[n - 1]));
                assert(cur[k] == entries[n - 1].relative->Some_0@);
            }
        }
    }
}

/// Law: while fewer than `max` paths were found, every walked entry that
/// is a regular file below the search directory, and whose relative path
/// or full path the pattern matches, is reported; and a search over more
/// entries reports the paths of a search over fewer first.
pub proof fn lemma_glob_hits_complete(p: Seq<char>, entries: Seq<WalkEntry>, max: int, n: int)
    requires
        0 <= n <= entries.len(),
    ensures
        glob_hits(p, entries, max, n).len() < max ==> forall|i: int| 0 <= i < n && entries[i].is_file
            && (entries[i].relative matches Some(rel) && (glob_match(p, rel@) || glob_match(p, entries[i].path@)))
            ==> glob_hits(p, entries, max, n).contains(entries[i].relative->Some_0@),
        forall|m: int| 0 <= m <= n ==> (#[trigger] glob_hits(p, entries, max, m)).len() <= glob_hits(p, entries, max, n).len()
            && glob_hits(p, entries, max, n).take(glob_hits(p, entries, max, m).len() as int) == glob_hits(p, entries, max, m),
    decreases n,
{
    if n > 0 {
        lemma_glob_hits_complete(p, entries, max, n - 1);
        let prev = glob_hits(p, entries, max, n - 1);
        let cur = glob_hits(p, entries, max, n);
        assert(cur.take(prev.len() as int) =~= prev);
        assert forall|m: int| 0 <= m <= n implies (#[trigger] glob_hits(p, entries, max, m)).len() <= cur.len()
            && cur.take(glob_hits(p, entries, max, m).len() as int) == glob_hits(p, entries, max, m) by {
            if m < n {
                let q = glob_hits(p, entries, max, m);
                assert(prev.take(q.len() as int) == q);
                assert(cur.take(q.len() as int) =~= prev.take(q.len() as int));
            } else {
                assert(cur.take(cur.len() as int) =~= cur);
            }
        }
        if cur.len() < max {
            assert forall|i: int| 0 <= i < n && entries[i].is_file
                && (entries[i].relative matches Some(rel) && (glob_match(p, rel@) || glob_match(p, entries[i].path@)))
                implies cur.contains(entries[i].relative->Some_0@) by {
                if i < n - 1 {
                    assert(prev.contains(entries[i].relative->Some_0@));
                    let k = choose|k: int| 0 <= k < prev.len() && prev[k] == entries[i].relative->Some_0@;
                    assert(cur[k] == prev[k]);
                } else {
                    assert(entry_hit(p, entries[n - 1]));
                    assert(cur[prev.len() as int] == entries[n - 1].relative->Some_0@);
                }
            }
        }
    } else {
        assert forall|m: int| 0 <= m <= n implies (#[trigger] glob_hits(p, entries, max, m)).len() <= glob_hits(p, entries, max, n).len()
            && glob_hits(p, entries, max, n).take(glob_hits(p, entries, max, m).len() as int) == glob_hits(p, entries, max, m) by {
            assert(glob_hits(p, entries, max, 0).take(0) =~= glob_hits(p, entries, max, 0));
        }
    }
}

/// The text reported for the sorted list of found paths.
pub open spec fn glob_report(found: Seq<Seq<char>>) -> Seq<char> {
    if found.len() == 0 {
        "No files found matching the pattern."@
    } else {
        decimal(found.len()) + " files found:\n"@ + join_seq(found, "\n"@)
    }
}

/// How many walked entries a search looks at, at most.
pub const WALK_LIMIT: usize = 10_000;

/// Finds files by glob pattern.
pub struct GlobTool;

impl GlobTool {
    pub fn new() -> (r: Self) {
        GlobTool
    }

    /// The pattern of a call, compiled; the error "invalid glob pattern:
    /// <error>" when it does not compile.
    pub fn compile(&self, input: &GlobInput) -> (r: Result<GlobPattern, CliError>)
        ensures
            r is Ok == glob_compiles(input.pattern@),
            r matches Ok(g) ==> g.source() == input.pattern@,
            r matches Err(e) ==> e matches CliError::ToolExecution(m)
                && m@ == "invalid glob pattern: "@ + glob_error_text(input.pattern@),
    {
        match glob_compile(input.pattern.as_str()) {
            Ok(g) => Ok(g),
            Err(e) => {
                let mut m = owned("invalid glob pattern: ");
                m.append(e.as_str());
                Err(CliError::ToolExecution(m))
            },
        }
    }

    /// The most paths a call reports: the number it names, else 100.
    pub fn max_results(&self, input: &GlobInput) -> (r: usize)
        ensures
            r == match input.max_results {
                Some(m) => m,
                None => 100,
            },
    {
        match input.max_results {
            Some(m) => m,
            None => 100,
        }
    }

    /// The relative paths of the walked entries that the pattern matches,
    /// at most `max` of them, in walk order; only the first `WALK_LIMIT`
    /// entries are looked at.
    pub fn matching(&self, pattern: &GlobPattern, entries: &Vec<WalkEntry>, max: usize) -> (r: Vec<String>)
        ensures
            views(r@) == glob_hits(
                pattern.source(),
                entries@,
                max as int,
                if entries@.len() < WALK_LIMIT { entries@.len() as int } else { WALK_LIMIT as int },
            ),
    {
        let mut found: Vec<String> = Vec::new();
        let mut i: usize = 0;
        while i < entries.len() && i < WALK_LIMIT
            invariant
                i <= entries@.len(),
                i <= WALK_LIMIT,
                views(found@) == glob_hits(pattern.source(), entries@, max as int, i as int),
            decreases entries.len() - i,
        {
            let e = &entries[i];
            if found.len() < max && e.is_file {
                match &e.relative {
                    Some(rel) => {
                        if glob_matches(pattern, rel.as_str()) || glob_matches(pattern, e.path.as_str()) {
                            let ghost before = found@;
                            found.push(rel.clone());
                            assert(views(found@) =~= views(before).push(rel@));
                        }
                    },
                    None => {},
                }
            }
            i = i + 1;
        }
        found
    }

    /// The result of a search that found `found`: the paths in ascending
    /// order under a count, or a line saying nothing was found.
    pub fn report(&self, found: Vec<String>, duration_ms: u64) -> (r: ToolResult)
        ensures
            !r.is_error,
            r.metrics == Some(ToolMetrics { duration_ms, tokens_used: None }),
            exists|s: Seq<Seq<char>>| {
                &&& s.to_multiset() == views(found@).to_multiset()
                &&& sorted_strings(s)
                &&& text_blocks(r.content@, seq![glob_report(s)])
            },
    {
        let mut sorted = found;
        sort_strings(&mut sorted);
        let text = if sorted.len() == 0 {
            owned("No files found matching the pattern.")
        } else {
            let mut t = u64_to_decimal(sorted.len() as u64);
            t.append(" files found:\n");
            let joined = join(&sorted, "\n");
            t.append(joined.as_str());
            t
        };
        let r = ToolResult {
            content: vec![ResultContentBlock::Text { text }],
            is_error: false,
            metrics: Some(ToolMetrics { duration_ms, tokens_used: None }),
        };
        assert(text_blocks(r.content@, seq![glob_report(views(sorted@))]));
        r
    }

    /// The line shown when the tool is used; `None` when the arguments did
    /// not parse.
    pub fn render_use_message(&self, input: Option<&GlobInput>) -> (r: String)
        ensures
            r@ == match input {
                Some(i) => "Finding files matching: "@ + i.pattern@,
                None => "Finding files"@,
            },
    {
        match input {
            Some(i) => {
                let mut r = owned("Finding files matching: ");
                r.append(i.pattern.as_str());
                r
            },
            None => owned("Finding files"),
        }
    }
}

impl Default for GlobTool {
    fn default() -> (r: Self) {
        GlobTool::new()
    }
}

impl Tool for GlobTool {
    open spec fn spec_name(&self) -> Seq<char> {
        "Glob"@
    }

    open spec fn spec_aliases(&self) -> Seq<Seq<char>> {
        seq!["glob"@, "find"@, "list"@]
    }

    open spec fn spec_description(&self) -> Seq<char> {
        "Find files matching a glob pattern."@
    }

    open spec fn spec_read_only(&self) -> bool {
        true
    }

    fn name(&self) -> (r: &str) {
        "Glob"
    }

    fn aliases(&self) -> (r: Vec<String>) {
        let r: Vec<String> = vec![owned("glob"), owned("find"), owned("list")];
        assert(views(r@) =~= seq!["glob"@, "find"@, "list"@]);
        r
    }

    fn description(&self) -> (r: String) {
        owned("Find files matching a glob pattern.")
    }

    fn is_read_only(&self) -> (r: bool)
        ensures
            r,
    {
        true
    }
}

} // verus!
