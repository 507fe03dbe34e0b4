//! FileEdit tool: replace an exact piece of a file's text.

use vstd::prelude::*;
use crate::error::CliError;
use crate::ext::{line_changes, line_changes_of, LineChangeKind};
use crate::text::{contains_seq, owned, replace_all, str_contains, str_replace, views};
use crate::types::tool::{text_blocks, ResultContentBlock, Tool, ToolMetrics, ToolResult};

verus! {

/// The arguments of an Edit call.
pub struct EditInput {
    pub path: String,
    pub old_string: String,
    pub new_string: String,
}

/// The sign that marks a line change: "-", "+" or " ".
pub open spec fn change_sign(k: LineChangeKind) -> Seq<char> {
    match k {
        LineChangeKind::Delete => "-"@,
        LineChangeKind::Insert => "+"@,
        LineChangeKind::Equal => " "@,
    }
}

/// The changes, each written as its sign followed by its text, one after
/// the other.
pub open spec fn change_summary(changes: Seq<(LineChangeKind, Seq<char>)>) -> Seq<char>
    decreases changes.len(),
{
    if changes.len() == 0 {
        seq![]
    } else {
        change_summary(changes.drop_last()) + change_sign(changes.last().0) + changes.last().1
    }
}

/// Law: the summary of changes made one after the other is the summaries
/// of the parts, one after the other; a deleted line is written as "-"
/// and its text, an inserted line as "+" and its text, and an unchanged
/// line as " " and its text.
pub proof fn lemma_change_summary(a: Seq<(LineChangeKind, Seq<char>)>, b: Seq<(LineChangeKind, Seq<char>)>, t: Seq<char>)
    ensures
        change_summary(a + b) == change_summary(a) + change_summary(b),
        change_summary(seq![(LineChangeKind::Delete, t)]) == "-"@ + t,
        change_summary(seq![(LineChangeKind::Insert, t)]) == "+"@ + t,
        change_summary(seq![(LineChangeKind::Equal, t)]) == " "@ + t,
    decreases b.len(),
{
    let e: Seq<(LineChangeKind, Seq<char>)> = seq![];
    assert(change_summary(e) == Seq::<char>::empty());
    assert(seq![(LineChangeKind::Delete, t)].drop_last() =~= e);
    assert(seq![(LineChangeKind::Insert, t)].drop_last() =~= e);
    assert(seq![(LineChangeKind::Equal, t)].drop_last() =~= e);
    assert(Seq::<char>::empty() + "-"@ =~= "-"@);
    assert(Seq::<char>::empty() + "+"@ =~= "+"@);
    assert(Seq::<char>::empty() + " "@ =~= " "@);
    if b.len() == 0 {
        assert(a + b =~= a);
        assert(change_summary(a) + change_summary(b) =~= change_summary(a));
    } else {
        lemma_change_summary(a, b.drop_last(), t);
        assert((a + b).drop_last() =~= a + b.drop_last());
        assert((a + b).last() == b.last());
        assert(change_summary(a + b) =~= change_summary(a) + change_summary(b));
    }
}

/// The message for an `old_string` that the file does not hold.
pub open spec fn not_found_text() -> Seq<char> {
    "old_string not found in file. Make sure to match the exact text including whitespace."@
}

/// Summarises the line diff between two texts: each change's sign and
/// text, in order.
pub fn diff_summary(old: &str, new: &str) -> (r: String)
    ensures
        r@ == change_summary(line_changes_of(old@, new@)),
{
    let changes = line_changes(old, new);
    let ghost cs = line_changes_of(old@, new@);
    let mut summary = String::new();
    let mut i: usize = 0;
    while i < changes.len()
        invariant
            i <= changes@.len(),
            changes@.map_values(|c: (LineChangeKind, String)| (c.0, c.1@)) == cs,
            summary@ == change_summary(cs.take(i as int)),
        decreases changes.len() - i,
    {
        let (kind, text) = (changes[i].0, &changes[i].1);
        assert(cs[i as int] == (kind, text@));
        match kind {
            LineChangeKind::Delete => summary.append("-"),
            LineChangeKind::Insert => summary.append("+"),
            LineChangeKind::Equal => summary.append(" "),
        }
        summary.append(text.as_str());
        assert(cs.take(i + 1).drop_last() =~= cs.take(i as int));
        i = i + 1;
    }
    assert(cs.take(changes.len() as int) =~= cs);
    summary
}

/// Edits files.
pub struct FileEditTool;

impl FileEditTool {
    pub fn new() -> (r: Self) {
        FileEditTool
    }

    /// The error for a file that could not be read.
    pub fn read_error(&self, e: &str) -> (r: CliError)
        ensures
            r matches CliError::ToolExecution(m) && m@ == "cannot read file: "@ + e@,
    {
        let mut m = owned("cannot read file: ");
        m.append(e);
        CliError::ToolExecution(m)
    }

    /// The error for a file that could not be written.
    pub fn write_error(&self, e: &str) -> (r: CliError)
        ensures
            r matches CliError::ToolExecution(m) && m@ == "cannot write file: "@ + e@,
    {
        let mut m = owned("cannot write file: ");
        m.append(e);
        CliError::ToolExecution(m)
    }

    /// The file's new text, with every occurrence of `old_string` replaced
    /// by `new_string`; the failed result for an `old_string` that does not
    /// occur.
    pub fn apply(&self, input: &EditInput, original: &str) -> (r: Result<String, ToolResult>)
        ensures
            r is Ok == contains_seq(original@, input.old_string@),
            r matches Ok(t) ==> t@ == replace_all(original@, input.old_string@, input.new_string@),
            r matches Err(res) ==> res.is_error && res.metrics is None
                && text_blocks(res.content@, seq![not_found_text()]),
    {
        if !str_contains(original, input.old_string.as_str()) {
            return Err(ToolResult::error(owned(
                "old_string not found in file. Make sure to match the exact text including whitespace.",
            )));
        }
        Ok(str_replace(original, input.old_string.as_str(), input.new_string.as_str()))
    }

    /// The result of a successful edit: the summary of the line diff.
    pub fn edited(&self, original: &str, new_content: &str, duration_ms: u64) -> (r: ToolResult)
        ensures
            !r.is_error,
            r.metrics == Some(ToolMetrics { duration_ms, tokens_used: None }),
            text_blocks(r.content@, seq![change_summary(line_changes_of(original@, new_content@))]),
    {
        let summary = diff_summary(original, new_content);
        ToolResult {
            content: vec![ResultContentBlock::Text { text: summary }],
            is_error: false,
            metrics: Some(ToolMetrics { duration_ms, tokens_used: None }),
        }
    }

    /// The line shown when the tool is used; `None` when the arguments did
    /// not parse.
    pub fn render_use_message(&self, input: Option<&EditInput>) -> (r: String)
        ensures
            r@ == match input {
                Some(i) => "Editing: "@ + i.path@,
                None => "Editing file"@,
            },
    {
        match input {
            Some(i) => {
                let mut r = owned("Editing: ");
                r.append(i.path.as_str());
                r
            },
            None => owned("Editing file"),
        }
    }
}

impl Default for FileEditTool {
    fn default() -> (r: Self) {
        FileEditTool::new()
    }
}

impl Tool for FileEditTool {
    open spec fn spec_name(&self) -> Seq<char> {
        "Edit"@
    }

    open spec fn spec_aliases(&self) -> Seq<Seq<char>> {
        seq!["edit"@, "patch"@, "replace"@]
    }

    open spec fn spec_description(&self) -> Seq<char> {
        "Edit a file by replacing a specific string with new content. The old_string must match exactly. Use for small, targeted changes."@
    }

    open spec fn spec_destructive(&self) -> bool {
        true
    }

    fn name(&self) -> (r: &str) {
        "Edit"
    }

    fn aliases(&self) -> (r: Vec<String>) {
        let r: Vec<String> = vec![owned("edit"), owned("patch"), owned("replace")];
        assert(views(r@) =~= seq!["edit"@, "patch"@, "replace"@]);
        r
    }

    fn description(&self) -> (r: String) {
        owned("Edit a file by replacing a specific string with new content. The old_string must match exactly. Use for small, targeted changes.")
    }

    fn is_destructive(&self) -> (r: bool)
        ensures
            r,
    {
        true
    }
}

} // verus!
