use open_cc::error::CliError;
use open_cc::tools::bash::{BashInput, BashTool, CommandOutcome};
use open_cc::tools::powershell::{PowerShellInput, PowerShellTool};
use open_cc::tools::web_fetch::{WebFetchInput, WebFetchTool};
use open_cc::tools::web_search::{extract_results, WebSearchInput, WebSearchTool};
use open_cc::types::tool::{ResultContentBlock, Tool, ToolResult};

fn texts(r: &ToolResult) -> Vec<String> {
    r.content
        .iter()
        .map(|b| match b {
            ResultContentBlock::Text { text } => text.clone(),
            _ => panic!("not a text block"),
        })
        .collect()
}

fn bash_input(command: &str, timeout: Option<u64>) -> BashInput {
    BashInput { command: command.to_string(), timeout, working_directory: None, environment: None }
}

fn finished(success: bool, stdout: &str, stderr: &str) -> CommandOutcome {
    CommandOutcome::Finished { success, stdout: stdout.to_string(), stderr: stderr.to_string(), duration_ms: 12 }
}

#[test]
fn bash_timeout_defaults_to_300() {
    let tool = BashTool::new();
    assert_eq!(tool.effective_timeout(&bash_input("ls", None)), 300);
    assert_eq!(tool.effective_timeout(&bash_input("ls", Some(5))), 5);
}

#[test]
fn bash_failed_command_shows_stderr_then_stdout() {
    let tool = BashTool::new();
    let r = tool.finish(300, finished(false, "out", "err")).unwrap();
    assert!(r.is_error);
    assert_eq!(texts(&r), vec!["stderr:\nerr".to_string(), "out".to_string()]);
    assert_eq!(r.metrics.unwrap().duration_ms, 12);
}

#[test]
fn bash_stderr_only_is_shown_twice_when_failing() {
    let tool = BashTool::new();
    let r = tool.finish(300, finished(false, "", "boom")).unwrap();
    assert_eq!(texts(&r), vec!["stderr:\nboom".to_string(), "boom".to_string()]);
    let r = tool.finish(300, finished(true, "", "warning")).unwrap();
    assert!(!r.is_error);
    assert_eq!(texts(&r), vec!["warning".to_string()]);
}

#[test]
fn bash_successful_output_is_reported() {
    let tool = BashTool::new();
    let r = tool.finish(300, finished(true, "hello\n", "")).unwrap();
    assert!(!r.is_error);
    assert_eq!(texts(&r), vec!["hello\n".to_string()]);
    let r = tool.finish(300, finished(true, "hi\n", "note")).unwrap();
    assert_eq!(texts(&r), vec!["hi\n".to_string()]);
    let r = tool.finish(300, finished(true, "", "")).unwrap();
    assert_eq!(texts(&r), vec!["(no output)".to_string()]);
}

#[test]
fn bash_timeout_and_failures() {
    let tool = BashTool::new();
    let r = tool.finish(7, CommandOutcome::TimedOut).unwrap();
    assert!(r.is_error);
    assert_eq!(texts(&r), vec!["Command timed out after 7 seconds".to_string()]);
    let r = tool.finish(7, CommandOutcome::WaitFailed("broken pipe".to_string())).unwrap();
    assert_eq!(texts(&r), vec!["failed to wait: broken pipe".to_string()]);
    let r = tool.finish(7, CommandOutcome::AlreadyTaken).unwrap();
    assert_eq!(texts(&r), vec!["child already taken".to_string()]);
    match tool.finish(7, CommandOutcome::SpawnFailed("no sh".to_string())) {
        Err(CliError::ToolExecution(m)) => assert_eq!(m, "no sh"),
        _ => panic!("expected an execution error"),
    }
}

#[test]
fn bash_render() {
    let tool = BashTool::new();
    assert_eq!(tool.render_use_message(Some(&bash_input("ls -la", None))), "Executing: ls -la");
    let long = "x".repeat(70);
    assert_eq!(tool.render_use_message(Some(&bash_input(&long, None))), format!("Executing: {}...", "x".repeat(60)));
    assert_eq!(tool.render_use_message(None), "Executing bash command");
    assert_eq!(tool.name(), "Bash");
    assert_eq!(tool.aliases(), vec!["bash".to_string(), "shell".to_string(), "exec".to_string()]);
    assert!(!tool.is_read_only());
}

fn ps_input(command: &str, timeout: Option<u64>, description: Option<&str>) -> PowerShellInput {
    PowerShellInput {
        command: command.to_string(),
        timeout,
        description: description.map(|d| d.to_string()),
        run_in_background: None,
        dangerously_disable_sandbox: None,
    }
}

#[test]
fn powershell_timeout_limit() {
    let tool = PowerShellTool::new();
    match tool.call(Ok(&ps_input("dir", Some(600_001), None))) {
        Err(CliError::ToolExecution(m)) => assert_eq!(m, "Timeout 600001ms exceeds maximum allowed 600000ms"),
        _ => panic!("expected a refusal"),
    }
    match tool.call(Ok(&ps_input("dir", Some(600_000), None))) {
        Err(CliError::ToolExecution(m)) => assert_eq!(m, "This tool requires the TUI/system integration."),
        _ => panic!("expected the integration error"),
    }
    match tool.call(Err("missing field `command`")) {
        Err(CliError::ToolExecution(m)) => assert_eq!(m, "Invalid input: missing field `command`"),
        _ => panic!("expected an input error"),
    }
}

#[test]
fn powershell_render() {
    let tool = PowerShellTool::new();
    assert_eq!(tool.render_use_message(Some(&ps_input("dir", None, Some("list files")))), "PowerShell (list files): dir");
    assert_eq!(tool.render_use_message(Some(&ps_input("dir", None, None))), "PowerShell: dir");
    assert_eq!(tool.render_use_message(None), "Running PowerShell command");
    assert_eq!(tool.render_result_message(&ToolResult::error("x".to_string())), "PowerShell command failed.");
    assert_eq!(tool.render_result_message(&ToolResult::text("x".to_string())), "PowerShell command completed.");
}

#[test]
fn web_fetch_pretty_prints_json() {
    let tool = WebFetchTool::new();
    assert_eq!(tool.body_text("application/json; charset=utf-8", "{\"a\":1}".to_string()), "{\n  \"a\": 1\n}");
    assert_eq!(tool.body_text("application/json", "not json".to_string()), "not json");
    assert_eq!(tool.body_text("text/html", "{\"a\":1}".to_string()), "{\"a\":1}");
}

#[test]
fn web_fetch_truncates_long_bodies() {
    let tool = WebFetchTool::new();
    let body = "y".repeat(50_010);
    let r = tool.fetched("text/plain", body, 3).unwrap();
    let t = texts(&r).remove(0);
    assert_eq!(t, format!("{}...\n\n(Output truncated - 50010 chars total)", "y".repeat(50_000)));
    let r = tool.fetched("text/plain", "short".to_string(), 3).unwrap();
    assert_eq!(texts(&r), vec!["short".to_string()]);
}

#[test]
fn web_fetch_refuses_a_cut_inside_a_character() {
    let tool = WebFetchTool::new();
    let body = format!("{}\u{e9}tail{}", "a".repeat(49_999), "b".repeat(10));
    assert!(tool.fetched("text/plain", body, 0).is_none());
}

#[test]
fn web_fetch_status_and_render() {
    let tool = WebFetchTool::new();
    assert!(tool.check_status(true, "200 OK").is_none());
    let r = tool.check_status(false, "404 Not Found").unwrap();
    assert_eq!(texts(&r), vec!["HTTP error: 404 Not Found".to_string()]);
    let input = WebFetchInput { url: "https://example.com".to_string(), prompt: None };
    assert_eq!(tool.render_use_message(Some(&input)), "Fetching: https://example.com");
    assert_eq!(tool.render_use_message(None), "Fetching URL");
    match tool.fetch_error("timeout") {
        CliError::ToolExecution(m) => assert_eq!(m, "fetch failed: timeout"),
        _ => panic!(),
    }
}

#[test]
fn web_search_url_encodes_the_query() {
    let tool = WebSearchTool::new();
    let input = WebSearchInput { query: "rust lang & verus".to_string(), source: None };
    assert_eq!(tool.search_url(&input), "https://html.duckduckgo.com/html/?q=rust%20lang%20%26%20verus&kl=us-en");
}

#[test]
fn web_search_extracts_results() {
    let body = "<div class=\"result__title\"><a class=\"result__a\" href=\"https://a.example\">Alpha</a></div>\n\
                <div class=\"other\">ignored</div>\n\
                <div class=\"web-result\"><a class=\"result__a\" href=\"https://b.example\">Beta</a></div>";
    assert_eq!(
        extract_results(body),
        vec!["- Alpha (https://a.example)".to_string(), "- Beta (https://b.example)".to_string()]
    );
    let tool = WebSearchTool::new();
    let input = WebSearchInput { query: "q".to_string(), source: None };
    let r = tool.report(&input, body, 1);
    assert_eq!(
        texts(&r),
        vec!["Search results for: q\n\n- Alpha (https://a.example)\n- Beta (https://b.example)\n\n(Results from DuckDuckGo)"
            .to_string()]
    );
    let r = tool.report(&input, "<html></html>", 1);
    assert_eq!(
        texts(&r),
        vec!["Search results for: q\n\nNo structured results found. Try using WebFetch directly.".to_string()]
    );
}

#[test]
fn web_search_status_and_render() {
    let tool = WebSearchTool::new();
    let r = tool.check_status(false, "503 Service Unavailable").unwrap();
    assert_eq!(texts(&r), vec!["Search failed: HTTP 503 Service Unavailable".to_string()]);
    let input = WebSearchInput { query: "verus".to_string(), source: None };
    assert_eq!(tool.render_use_message(Some(&input)), "Searching web for: verus");
    assert_eq!(tool.render_use_message(None), "Searching the web");
}

#[test]
fn web_requests_name_the_product_in_their_user_agent() {
    assert_eq!(WebFetchTool::new().user_agent("Acme Code"), "Acme Code CLI/2.0");
    assert_eq!(WebSearchTool::new().user_agent("Acme Code"), "Mozilla/5.0 (compatible; Acme Code CLI/2.0)");
}
