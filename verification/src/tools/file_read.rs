//! FileRead tool: read a file, whole or by a range of lines.

use vstd::prelude::*;
use crate::error::CliError;
use crate::text::{decimal, join_seq, join_strs, lines, lines_of, owned, str_views, u64_to_decimal, views};
use crate::types::tool::{text_blocks, ResultContentBlock, Tool, ToolMetrics, ToolResult};

verus! {

/// The arguments of a Read call.
pub struct ReadInput {
    pub path: String,
    pub start_line: Option<usize>,
    pub end_line: Option<usize>,
}

/// The lines from number `start` to number `end` (both counted from 1 and
/// inclusive, `end` capped at the last line), or `None` when that range is
/// empty or starts past the end.
pub open spec fn line_range(lines: Seq<Seq<char>>, start: int, end: int) -> Option<Seq<Seq<char>>> {
    let s = if start >= 1 { start - 1 } else { 0 };
    let e0 = if end < lines.len() { end } else { lines.len() as int };
    let e = if e0 >= 1 { e0 - 1 } else { 0 };
    if s > e || s >= lines.len() {
        None
    } else {
        Some(lines.subrange(s, e + 1))
    }
}

/// Law: a range of line numbers within the file gives exactly those lines,
/// `end - start + 1` of them, the first being line `start`; a start of 0
/// counts as 1; an end past the last line counts as the last line; a range
/// that starts past the last line or after its end gives nothing.
pub proof fn lemma_line_range(lines: Seq<Seq<char>>, start: int, end: int)
    ensures
        1 <= start <= end <= lines.len() ==> {
            &&& line_range(lines, start, end) matches Some(r)
            &&& r.len() == end - start + 1
            &&& forall|k: int| 0 <= k < r.len() ==> r[k] == lines[start - 1 + k]
        },
        start <= 0 ==> line_range(lines, start, end) == line_range(lines, 1, end),
        end >= lines.len() ==> line_range(lines, start, end) == line_range(lines, start, lines.len() as int),
        start > lines.len() ==> line_range(lines, start, end) is None,
        1 <= end < start ==> line_range(lines, start, end) is None,
{
}

/// What a Read call reports for a file's content: the whole content, or,
/// when both ends of a range are given, those lines joined with newlines;
/// `None` when the range is invalid.
pub open spec fn read_output(input: ReadInput, content: Seq<char>) -> Option<Seq<char>> {
    match (input.start_line, input.end_line) {
        (Some(s), Some(e)) => match line_range(lines_of(content), s as int, e as int) {
            Some(ls) => Some(join_seq(ls, "\n"@)),
            None => None,
        },
        _ => Some(content),
    }
}

/// "File too large (<size> bytes). Maximum is <max> bytes."
pub open spec fn too_large_text(size: u64, max: u64) -> Seq<char> {
    "File too large ("@ + decimal(size as nat) + " bytes). Maximum is "@ + decimal(max as nat) + " bytes."@
}

/// Reads files.
pub struct FileReadTool {
    max_file_size: usize,
}

impl FileReadTool {
    /// The largest file, in bytes, that the tool reads.
    pub closed spec fn size_limit(&self) -> usize {
        self.max_file_size
    }

    /// A tool that reads files of up to 10 MiB.
    pub fn new() -> (r: Self)
        ensures
            r.size_limit() == 10 * 1024 * 1024,
    {
        FileReadTool { max_file_size: 10 * 1024 * 1024 }
    }

    /// The failed result for a file of `size` bytes, when that is over the
    /// limit; `None` when the file may be read.
    pub fn check_size(&self, size: u64) -> (r: Option<ToolResult>)
        ensures
            r is Some == (size > self.size_limit()),
            r matches Some(res) ==> res.is_error && res.metrics is None
                && text_blocks(res.content@, seq![too_large_text(size, self.size_limit() as u64)]),
    {
        let max = self.max_file_size as u64;
        if size > max {
            let mut t = owned("File too large (");
            let n = u64_to_decimal(size);
            t.append(n.as_str());
            t.append(" bytes). Maximum is ");
            let m = u64_to_decimal(max);
            t.append(m.as_str());
            t.append(" bytes.");
            Some(ToolResult::error(t))
        } else {
            None
        }
    }

    /// The error for a file that could not be read: "cannot read file
    /// <path>: <error>".
    pub fn read_error(&self, input: &ReadInput, e: &str) -> (r: CliError)
        ensures
            r matches CliError::ToolExecution(m) && m@ == "cannot read file "@ + input.path@ + ": "@ + e@,
    {
        let mut m = owned("cannot read file ");
        m.append(input.path.as_str());
        m.append(": ");
        m.append(e);
        CliError::ToolExecution(m)
    }

    /// The result of reading `content`: the requested text, or the failed
    /// result "Invalid line range".
    pub fn output(&self, input: &ReadInput, content: String, duration_ms: u64) -> (r: ToolResult)
        ensures
            match read_output(*input, content@) {
                Some(t) => !r.is_error && r.metrics == Some(ToolMetrics { duration_ms, tokens_used: None })
                    && text_blocks(r.content@, seq![t]),
                None => r.is_error && r.metrics is None && text_blocks(r.content@, seq!["Invalid line range"@]),
            },
    {
        let text = match (input.start_line, input.end_line) {
            (Some(start), Some(end)) => {
                let all = lines(content.as_str());
                let ghost ls = lines_of(content@);
                let n = all.len();
                let s: usize = if start >= 1 { start - 1 } else { 0 };
                let e0: usize = if end < n { end } else { n };
                let e: usize = if e0 >= 1 { e0 - 1 } else { 0 };
                if s > e || s >= n {
                    return ToolResult::error(owned("Invalid line range"));
                }
                let mut picked: Vec<&str> = Vec::new();
                let mut i: usize = s;
                while i <= e
                    invariant
                        s <= i <= e + 1,
                        e < n,
                        n == all@.len(),
                        str_views(all@) == ls,
                        str_views(picked@) =~= ls.subrange(s as int, i as int),
                    decreases e + 1 - i,
                {
                    let ghost before = picked@;
                    picked.push(all[i]);
                    assert(str_views(picked@) =~= str_views(before).push(ls[i as int]));
                    i = i + 1;
                }
                join_strs(&picked, "\n")
            },
            _ => content,
        };
        ToolResult {
            content: vec![ResultContentBlock::Text { text }],
            is_error: false,
            metrics: Some(ToolMetrics { duration_ms, tokens_used: None }),
        }
    }

    /// The line shown when the tool is used; `None` when the arguments did
    /// not parse.
    pub fn render_use_message(&self, input: Option<&ReadInput>) -> (r: String)
        ensures
            r@ == match input {
                Some(i) => "Reading file: "@ + i.path@,
                None => "Reading file"@,
            },
    {
        match input {
            Some(i) => {
                let mut r = owned("Reading file: ");
                r.append(i.path.as_str());
                r
            },
            None => owned("Reading file"),
        }
    }
}

impl Default for FileReadTool {
    fn default() -> (r: Self)
        ensures
            r.size_limit() == 10 * 1024 * 1024,
    {
        FileReadTool::new()
    }
}

impl Tool for FileReadTool {
    open spec fn spec_name(&self) -> Seq<char> {
        "Read"@
    }

    open spec fn spec_aliases(&self) -> Seq<Seq<char>> {
        seq!["read"@, "cat"@]
    }

    open spec fn spec_description(&self) -> Seq<char> {
        "Read the contents of a file. Can read specific line ranges."@
    }

    open spec fn spec_read_only(&self) -> bool {
        true
    }

    fn name(&self) -> (r: &str) {
        "Read"
    }

    fn aliases(&self) -> (r: Vec<String>) {
        let r: Vec<String> = vec![owned("read"), owned("cat")];
        assert(views(r@) =~= seq!["read"@, "cat"@]);
        r
    }

    fn description(&self) -> (r: String) {
        owned("Read the contents of a file. Can read specific line ranges.")
    }

    fn is_read_only(&self) -> (r: bool)
        ensures
            r,
    {
        true
    }
}

} // verus!
