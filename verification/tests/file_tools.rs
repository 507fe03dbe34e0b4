use open_cc::error::CliError;
use open_cc::tools::file_edit::{diff_summary, EditInput, FileEditTool};
use open_cc::tools::file_read::{FileReadTool, ReadInput};
use open_cc::tools::file_write::{FileWriteTool, WriteInput};
use open_cc::tools::glob::{GlobInput, GlobTool, WalkEntry, WALK_LIMIT};
use open_cc::tools::grep::{GrepInput, GrepTool};
use open_cc::types::tool::{ResultContentBlock, Tool, ToolResult};

fn only_text(r: &ToolResult) -> String {
    assert_eq!(r.content.len(), 1);
    match &r.content[0] {
        ResultContentBlock::Text { text } => text.clone(),
        _ => panic!("not a text block"),
    }
}

fn texts(r: &ToolResult) -> Vec<String> {
    r.content
        .iter()
        .map(|b| match b {
            ResultContentBlock::Text { text } => text.clone(),
            _ => panic!("not a text block"),
        })
        .collect()
}

fn read_input(start: Option<usize>, end: Option<usize>) -> ReadInput {
    ReadInput { path: "notes.txt".to_string(), start_line: start, end_line: end }
}

#[test]
fn read_whole_file() {
    let tool = FileReadTool::new();
    let r = tool.output(&read_input(None, None), "a\nb\nc\n".to_string(), 7);
    assert!(!r.is_error);
    assert_eq!(only_text(&r), "a\nb\nc\n");
    assert_eq!(r.metrics.unwrap().duration_ms, 7);
}

#[test]
fn read_line_range() {
    let tool = FileReadTool::new();
    let r = tool.output(&read_input(Some(2), Some(3)), "one\ntwo\nthree\nfour".to_string(), 0);
    assert_eq!(only_text(&r), "two\nthree");
    // The end is capped at the last line.
    let r = tool.output(&read_input(Some(3), Some(99)), "one\ntwo\nthree\nfour".to_string(), 0);
    assert_eq!(only_text(&r), "three\nfour");
    // Line 0 counts as line 1.
    let r = tool.output(&read_input(Some(0), Some(1)), "one\ntwo".to_string(), 0);
    assert_eq!(only_text(&r), "one");
}

#[test]
fn read_invalid_line_range() {
    let tool = FileReadTool::new();
    let r = tool.output(&read_input(Some(5), Some(2)), "one\ntwo\nthree\nfour\nfive".to_string(), 0);
    assert!(r.is_error);
    assert_eq!(only_text(&r), "Invalid line range");
    let r = tool.output(&read_input(Some(3), Some(9)), "one\ntwo".to_string(), 0);
    assert!(r.is_error);
    let r = tool.output(&read_input(Some(1), Some(1)), "".to_string(), 0);
    assert!(r.is_error);
}

#[test]
fn read_only_one_end_reads_everything() {
    let tool = FileReadTool::new();
    let r = tool.output(&read_input(Some(2), None), "x\ny".to_string(), 0);
    assert_eq!(only_text(&r), "x\ny");
}

#[test]
fn read_size_limit() {
    let tool = FileReadTool::new();
    assert!(tool.check_size(10 * 1024 * 1024).is_none());
    let r = tool.check_size(10 * 1024 * 1024 + 1).unwrap();
    assert!(r.is_error);
    assert_eq!(only_text(&r), "File too large (10485761 bytes). Maximum is 10485760 bytes.");
}

#[test]
fn read_error_text() {
    let tool = FileReadTool::new();
    match tool.read_error(&read_input(None, None), "No such file") {
        CliError::ToolExecution(m) => assert_eq!(m, "cannot read file notes.txt: No such file"),
        _ => panic!("wrong error"),
    }
}

#[test]
fn read_render_and_identity() {
    let tool = FileReadTool::new();
    assert_eq!(tool.render_use_message(Some(&read_input(None, None))), "Reading file: notes.txt");
    assert_eq!(tool.render_use_message(None), "Reading file");
    assert_eq!(tool.name(), "Read");
    assert_eq!(tool.aliases(), vec!["read".to_string(), "cat".to_string()]);
    assert!(tool.is_read_only());
}

#[test]
fn write_reports_bytes() {
    let tool = FileWriteTool::new();
    let input = WriteInput { path: "out/a.txt".to_string(), content: "h\u{e9}llo".to_string() };
    let r = tool.written(&input, 3);
    assert_eq!(only_text(&r), "File written: out/a.txt (6 bytes)");
    assert_eq!(tool.render_use_message(Some(&input)), "Writing 6 bytes to: out/a.txt");
    assert_eq!(tool.render_use_message(None), "Writing file");
    assert!(tool.is_destructive());
    match tool.write_error("disk full") {
        CliError::ToolExecution(m) => assert_eq!(m, "cannot write file: disk full"),
        _ => panic!("wrong error"),
    }
    match tool.directory_error("denied") {
        CliError::ToolExecution(m) => assert_eq!(m, "cannot create directory: denied"),
        _ => panic!("wrong error"),
    }
}

fn edit_input(old: &str, new: &str) -> EditInput {
    EditInput { path: "f.rs".to_string(), old_string: old.to_string(), new_string: new.to_string() }
}

#[test]
fn edit_replaces_every_occurrence() {
    let tool = FileEditTool::new();
    let out = tool.apply(&edit_input("foo", "bar"), "foo and foo").unwrap();
    assert_eq!(out, "bar and bar");
}

#[test]
fn edit_missing_text_is_refused() {
    let tool = FileEditTool::new();
    let r = tool.apply(&edit_input("absent", "x"), "present").unwrap_err();
    assert!(r.is_error);
    assert_eq!(
        only_text(&r),
        "old_string not found in file. Make sure to match the exact text including whitespace."
    );
}

#[test]
fn edit_summary_marks_changed_lines() {
    let summary = diff_summary("a\nb\n", "a\nc\n");
    assert!(summary.starts_with(" "));
    assert!(summary.contains("-"));
    assert!(summary.contains("+"));
    assert!(summary.contains("Delete"));
    assert!(summary.contains("Insert"));
    let tool = FileEditTool::new();
    let r = tool.edited("a\nb\n", "a\nc\n", 1);
    assert_eq!(only_text(&r), summary);
    assert_eq!(tool.render_use_message(Some(&edit_input("x", "y"))), "Editing: f.rs");
}

fn grep_input(pattern: &str, case_sensitive: bool, max: Option<usize>, context: Option<usize>) -> GrepInput {
    GrepInput {
        pattern: pattern.to_string(),
        path: None,
        case_sensitive,
        include_files: None,
        max_results: max,
        context,
    }
}

#[test]
fn grep_finds_lines_case_insensitively() {
    let tool = GrepTool::new();
    let mut search = tool.start(&grep_input("hello", false, None, None)).ok().unwrap();
    assert_eq!(search.max_results(), 100);
    search.add_file("src/a.txt", "Hello world\nnothing\nsay hello\n");
    let r = search.finish(4);
    assert!(!r.is_error);
    assert_eq!(texts(&r), vec!["src/a.txt:1: Hello world".to_string(), "src/a.txt:3: say hello".to_string()]);
}

#[test]
fn grep_case_sensitive_pattern() {
    let tool = GrepTool::new();
    assert_eq!(tool.pattern_for(&grep_input("abc", true, None, None)), "abc");
    assert_eq!(tool.pattern_for(&grep_input("abc", false, None, None)), "(?i)abc");
    let mut search = tool.start(&grep_input("Hello", true, None, None)).ok().unwrap();
    search.add_file("f", "hello\nHello");
    assert_eq!(texts(&search.finish(0)), vec!["f:2: Hello".to_string()]);
}

#[test]
fn grep_context_lines_come_nearest_first() {
    let tool = GrepTool::new();
    let mut search = tool.start(&grep_input("target", true, None, Some(2))).ok().unwrap();
    search.add_file("f", "l1\nl2\nl3\ntarget\n");
    assert_eq!(texts(&search.finish(0)), vec!["3: l3\n2: l2\nf:4: target".to_string()]);
}

#[test]
fn grep_stops_at_the_limit() {
    let tool = GrepTool::new();
    let mut search = tool.start(&grep_input("x", true, Some(2), None)).ok().unwrap();
    assert!(!search.is_done());
    search.add_file("a", "x\nx\nx\n");
    assert!(search.is_done());
    assert_eq!(texts(&search.finish(0)), vec!["a:1: x".to_string(), "a:2: x".to_string()]);
}

#[test]
fn grep_nothing_found() {
    let tool = GrepTool::new();
    let mut search = tool.start(&grep_input("zzz", true, None, None)).ok().unwrap();
    search.add_file("a", "abc");
    assert_eq!(texts(&search.finish(0)), vec!["No matches found.".to_string()]);
}

#[test]
fn grep_invalid_regex() {
    let tool = GrepTool::new();
    let r = tool.start(&grep_input("(unclosed", true, None, None));
    let res = match r {
        Err(res) => res,
        Ok(_) => panic!("should not compile"),
    };
    assert!(res.is_error);
    assert!(only_text(&res).starts_with("invalid regex: "));
}

#[test]
fn grep_render() {
    let tool = GrepTool::new();
    assert_eq!(tool.render_use_message(Some(&grep_input("fn main", true, None, None))), "Searching for: fn main");
    assert_eq!(tool.render_use_message(None), "Searching files");
}

fn entry(path: &str, rel: Option<&str>, is_file: bool) -> WalkEntry {
    WalkEntry { is_file, path: path.to_string(), relative: rel.map(|r| r.to_string()) }
}

#[test]
fn glob_matches_and_sorts() {
    let tool = GlobTool::new();
    let input = GlobInput { pattern: "*.rs".to_string(), path: None, max_results: None };
    let pattern = tool.compile(&input).ok().unwrap();
    let entries = vec![
        entry("/p/src", Some("src"), false),
        entry("/p/z.rs", Some("z.rs"), true),
        entry("/p/a.rs", Some("a.rs"), true),
        entry("/p/readme.md", Some("readme.md"), true),
        entry("/elsewhere/x.rs", None, true),
    ];
    let found = tool.matching(&pattern, &entries, tool.max_results(&input));
    assert_eq!(found, vec!["z.rs".to_string(), "a.rs".to_string()]);
    let r = tool.report(found, 2);
    assert_eq!(only_text(&r), "2 files found:\na.rs\nz.rs");
}

#[test]
fn glob_limit_and_empty() {
    let tool = GlobTool::new();
    let input = GlobInput { pattern: "*".to_string(), path: None, max_results: Some(1) };
    let pattern = tool.compile(&input).ok().unwrap();
    let entries = vec![entry("/p/b", Some("b"), true), entry("/p/a", Some("a"), true)];
    let found = tool.matching(&pattern, &entries, tool.max_results(&input));
    assert_eq!(found, vec!["b".to_string()]);
    let r = tool.report(Vec::new(), 0);
    assert_eq!(only_text(&r), "No files found matching the pattern.");
}

#[test]
fn glob_invalid_pattern() {
    let tool = GlobTool::new();
    let input = GlobInput { pattern: "[".to_string(), path: None, max_results: None };
    match tool.compile(&input) {
        Err(CliError::ToolExecution(m)) => assert!(m.starts_with("invalid glob pattern: ")),
        _ => panic!("should not compile"),
    }
    assert_eq!(tool.render_use_message(Some(&input)), "Finding files matching: [");
    assert_eq!(tool.render_use_message(None), "Finding files");
}

#[test]
fn glob_looks_at_the_first_walked_entries_only() {
    let tool = GlobTool::new();
    let input = GlobInput { pattern: "*.rs".to_string(), path: None, max_results: None };
    let pattern = tool.compile(&input).ok().unwrap();
    let mut entries: Vec<WalkEntry> = (0..WALK_LIMIT).map(|_| entry("/p/x.md", Some("x.md"), true)).collect();
    entries.push(entry("/p/late.rs", Some("late.rs"), true));
    assert_eq!(WALK_LIMIT, 10_000);
    assert!(tool.matching(&pattern, &entries, 100).is_empty());
    entries[0] = entry("/p/early.rs", Some("early.rs"), true);
    assert_eq!(tool.matching(&pattern, &entries, 100), vec!["early.rs".to_string()]);
}
