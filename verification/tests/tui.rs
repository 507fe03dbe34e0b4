use open_cc::tui::app::{PermissionPrompt, TuiApp, MAX_HISTORY};
use open_cc::tui::components::{format_message, render_header, render_input, render_permission_prompt, render_status, Color};
use open_cc::tui::event_loop::{
    agent_heading, agent_result_line, classify_line, command_error_line, command_reply, multi_usage_lines,
    read_line_step, spawning_line, CommandReply, LineEvent, LineKey, LineStep, ReplHistory, ReplLine,
};
use open_cc::tui::input::{consume_input, handle_key, handle_key_event, InputEvent, KeyCode};
use open_cc::tui::output::{print_message, spinner_char};
use open_cc::types::message::{AssistantContent, ContentBlock, Message, UserContent};

fn tool_result(content: &str, is_error: bool) -> Message {
    Message::ToolResult { tool_use_id: "t1".to_string(), content: content.to_string(), is_error }
}

#[test]
fn new_app_is_ready() {
    let app = TuiApp::new();
    assert_eq!(app.status, "Ready");
    assert!(!app.is_running);
    assert!(app.messages.is_empty());
    assert_eq!(app.total_tokens(), 0);
}

#[test]
fn history_keeps_the_newest_messages() {
    let mut app = TuiApp::default();
    for i in 0..(MAX_HISTORY + 5) {
        app.add_message(tool_result(&format!("m{i}"), false));
    }
    assert_eq!(app.messages.len(), MAX_HISTORY);
    match &app.messages[0] {
        Message::ToolResult { content, .. } => assert_eq!(content, "m5"),
        _ => panic!(),
    }
    match app.messages.back().unwrap() {
        Message::ToolResult { content, .. } => assert_eq!(content, &format!("m{}", MAX_HISTORY + 4)),
        _ => panic!(),
    }
}

#[test]
fn running_and_errors_set_the_status() {
    let mut app = TuiApp::new();
    app.set_running(true);
    assert_eq!(app.status, "Thinking...");
    app.set_running(false);
    assert_eq!(app.status, "Ready");
    app.set_error(Some("boom".to_string()));
    assert_eq!(app.status, "Error");
    app.set_error(None);
    assert_eq!(app.status, "Error");
    assert!(app.error.is_none());
    app.input_tokens = 7;
    app.output_tokens = 5;
    assert_eq!(app.total_tokens(), 12);
}

#[test]
fn typing_and_editing_keys() {
    let mut app = TuiApp::new();
    for c in "hello world".chars() {
        assert!(handle_key(KeyCode::Char(c), false, &mut app));
    }
    assert_eq!(app.input, "hello world");
    assert!(handle_key(KeyCode::Backspace, false, &mut app));
    assert_eq!(app.input, "hello worl");
    assert!(handle_key(KeyCode::Char('w'), true, &mut app));
    assert_eq!(app.input, "hello");
    assert!(handle_key(KeyCode::Char('w'), true, &mut app));
    assert_eq!(app.input, "");
    assert!(handle_key(KeyCode::Char('x'), false, &mut app));
    assert!(handle_key(KeyCode::Char('u'), true, &mut app));
    assert_eq!(app.input, "");
    assert!(!handle_key(KeyCode::Char('z'), true, &mut app));
    assert!(!handle_key(KeyCode::Delete, false, &mut app));
    assert!(!handle_key(KeyCode::Other, false, &mut app));
    assert!(handle_key(KeyCode::Backspace, false, &mut app));
}

#[test]
fn enter_is_taken_only_with_text() {
    let mut app = TuiApp::new();
    assert!(!handle_key(KeyCode::Enter, false, &mut app));
    app.input = "  \t".to_string();
    assert!(!handle_key(KeyCode::Enter, false, &mut app));
    app.input = " hi ".to_string();
    assert!(handle_key(KeyCode::Enter, false, &mut app));
    assert!(handle_key(KeyCode::Esc, false, &mut app));
    assert_eq!(app.input, "");
}

#[test]
fn keys_are_ignored_while_running() {
    let mut app = TuiApp::new();
    app.set_running(true);
    assert!(!handle_key(KeyCode::Char('a'), false, &mut app));
    assert_eq!(app.input, "");
}

#[test]
fn permission_prompt_takes_every_key() {
    let mut app = TuiApp::new();
    app.permission_prompt = Some(PermissionPrompt {
        tool_name: "Bash".to_string(),
        command: "rm -rf x".to_string(),
        details: "deletes x".to_string(),
    });
    assert!(handle_key(KeyCode::Char('q'), false, &mut app));
    assert!(app.permission_prompt.is_some());
    assert_eq!(app.input, "");
    assert!(handle_key(KeyCode::Char('Y'), false, &mut app));
    assert!(app.permission_prompt.is_none());
}

#[test]
fn paste_and_other_events() {
    let mut app = TuiApp::new();
    assert!(handle_key_event(InputEvent::Paste("pasted text".to_string()), &mut app));
    assert_eq!(app.input, "pasted text");
    assert!(!handle_key_event(InputEvent::Other, &mut app));
    assert!(handle_key_event(InputEvent::Key { code: KeyCode::Char('!'), ctrl: false }, &mut app));
    assert_eq!(app.input, "pasted text!");
}

#[test]
fn consume_input_trims_and_clears() {
    let mut app = TuiApp::new();
    app.input = "   ".to_string();
    assert_eq!(consume_input(&mut app), None);
    assert_eq!(app.input, "   ");
    app.input = "  ask me  ".to_string();
    assert_eq!(consume_input(&mut app), Some("ask me".to_string()));
    assert_eq!(app.input, "");
}

#[test]
fn printed_lines_for_messages() {
    let lines = print_message(&tool_result("ok", true), "", "Acme");
    assert_eq!(lines.len(), 2);
    assert_eq!(lines[0].text, "\n[Tool Error]");
    assert!(lines[0].to_stderr);
    assert_eq!(lines[1].text, "ok");
    assert!(!lines[1].to_stderr);

    let long = "r".repeat(600);
    let lines = print_message(&tool_result(&long, false), "", "Acme");
    assert_eq!(lines[0].text, "\n[Tool Result]");
    assert_eq!(lines[1].text, format!("{}...\n[truncated]", "r".repeat(500)));

    let assistant = Message::Assistant {
        content: Some(AssistantContent {
            content: vec![
                ContentBlock::Text { text: "one".to_string() },
                ContentBlock::ToolResult { tool_use_id: "x".to_string(), content: "skip".to_string() },
                ContentBlock::Text { text: "two".to_string() },
            ],
            model: "m".to_string(),
            stop_reason: None,
        }),
    };
    let texts: Vec<String> = print_message(&assistant, "", "Acme").into_iter().map(|l| l.text).collect();
    assert_eq!(texts, vec!["\n[Acme]".to_string(), "one".to_string(), "two".to_string()]);

    let user = Message::User { content: UserContent::text("hi".to_string()) };
    let texts: Vec<String> = print_message(&user, "UserContent { .. }", "Acme").into_iter().map(|l| l.text).collect();
    assert_eq!(texts, vec!["\n[You]".to_string(), "UserContent { .. }".to_string()]);

    let system = Message::System { subtype: "s".to_string(), level: None, message: "note".to_string() };
    assert_eq!(print_message(&system, "", "Acme")[0].text, "\n[System] note");
    assert!(print_message(&Message::Tombstone, "", "Acme").is_empty());
}

#[test]
fn spinner_cycles_through_ten_frames() {
    assert_eq!(spinner_char(0), '\u{280b}');
    assert_eq!(spinner_char(9), '\u{280f}');
    assert_eq!(spinner_char(10), spinner_char(0));
    assert_eq!(spinner_char(23), spinner_char(3));
}

#[test]
fn listed_message_lines() {
    let l = format_message(&tool_result(&"q".repeat(150), true), "", "Acme");
    assert_eq!(l.text, format!("[Result] {}...", "q".repeat(100)));
    assert!(l.color == Some(Color::Red));
    let l = format_message(&tool_result("short", false), "", "Acme");
    assert_eq!(l.text, "[Result] short");
    assert!(l.color == Some(Color::DarkGray));
    let l = format_message(
        &Message::ToolUse { id: "1".to_string(), name: "Grep".to_string(), input: serde_json::Value::Null },
        "",
        "Acme",
    );
    assert_eq!(l.text, "[Tool: Grep]");
    let l = format_message(&Message::System { subtype: "s".to_string(), level: None, message: "m".to_string() }, "", "Acme");
    assert_eq!(l.text, "[System] m");
    assert!(l.italic);
    let l = format_message(&Message::Tombstone, "Tombstone", "Acme");
    assert_eq!(l.text, "Tombstone");
    assert!(l.color.is_none());
    let l = format_message(&Message::Assistant { content: None }, "", "Acme");
    assert_eq!(l.text, "[Acme] ");
}

#[test]
fn header_status_and_input_views() {
    let mut app = TuiApp::new();
    app.input_tokens = 12;
    app.output_tokens = 3;
    let h = render_header(&app, "Acme Code");
    assert_eq!(h.title, "Acme Code");
    assert_eq!(h.tokens, "12/3");
    app.set_running(true);
    assert_eq!(render_header(&app, "Acme Code").title, "Acme Code (running...)");
    let s = render_status(&app);
    assert_eq!(s.text, "Thinking...");
    assert!(s.color == Some(Color::Yellow));
    let i = render_input(&app);
    assert_eq!(i.text, "Type your message...");
    assert_eq!(i.title, "Input (disabled)");
    assert!(i.border_color == Color::DarkGray);
    app.set_error(Some("bad".to_string()));
    let s = render_status(&app);
    assert_eq!(s.text, "Error: bad");
    assert!(s.color == Some(Color::Red));
    app.set_running(false);
    app.input = "draft".to_string();
    let i = render_input(&app);
    assert_eq!(i.text, "draft");
    assert!(i.text_color == Color::White);
    assert_eq!(i.title, "Input");
}

#[test]
fn permission_box() {
    let p = PermissionPrompt { tool_name: "Bash".to_string(), command: "ls".to_string(), details: "lists".to_string() };
    let v = render_permission_prompt(&p);
    assert_eq!(v.title, "Permission: Bash");
    assert_eq!(v.lines, vec!["Command: ls", "", "lists", "", "Allow? [y/n/always/never]"]);
}

fn feed(line: &mut String, events: Vec<LineEvent>) -> Option<String> {
    for ev in events {
        if let LineStep::Done(d) = read_line_step(line, ev) {
            return Some(d);
        }
    }
    None
}

fn key(c: LineKey) -> LineEvent {
    LineEvent::Key { code: c, ctrl: false }
}

#[test]
fn reading_a_line() {
    let mut line = String::new();
    let done = feed(&mut line, vec![key(LineKey::Char('h')), key(LineKey::Char('x')), key(LineKey::Backspace),
        key(LineKey::Char('i')), LineEvent::Skipped, key(LineKey::Enter)]);
    assert_eq!(done, Some("hi".to_string()));

    let mut line = String::new();
    assert!(matches!(read_line_step(&mut line, key(LineKey::Backspace)), LineStep::Continue));
    assert!(matches!(read_line_step(&mut line, key(LineKey::Char('a'))), LineStep::Echo('a')));
    assert!(matches!(read_line_step(&mut line, key(LineKey::Backspace)), LineStep::Erase));

    let mut line = "typed".to_string();
    let done = feed(&mut line, vec![LineEvent::Key { code: LineKey::Char('c'), ctrl: true }]);
    assert_eq!(done, Some(String::new()));
    let mut line = "typed".to_string();
    assert_eq!(feed(&mut line, vec![key(LineKey::Esc)]), Some(String::new()));
    let mut line = "typed".to_string();
    assert_eq!(feed(&mut line, vec![LineEvent::Ended]), Some("typed".to_string()));
}

#[test]
fn classifying_lines() {
    assert!(matches!(classify_line("   "), ReplLine::Empty));
    assert!(matches!(classify_line("/multi"), ReplLine::MultiUsage));
    assert!(matches!(classify_line("/multi    "), ReplLine::MultiUsage));
    assert!(matches!(classify_line("/multi ; ;"), ReplLine::MultiEmpty));
    match classify_line("  /multi fix the bug;  write docs ;; ") {
        ReplLine::Multi(ps) => assert_eq!(ps, vec!["fix the bug".to_string(), "write docs".to_string()]),
        _ => panic!("expected prompts"),
    }
    match classify_line("  /multiple  ") {
        ReplLine::Text(t) => assert_eq!(t, "/multiple"),
        _ => panic!("expected text"),
    }
    match classify_line(" hello ") {
        ReplLine::Text(t) => assert_eq!(t, "hello"),
        _ => panic!("expected text"),
    }
}

#[test]
fn help_text() {
    let lines = ReplHistory::help_lines("Acme Code");
    assert_eq!(lines.len(), 11);
    assert_eq!(lines[0], "\nAcme Code \u{2014} Available commands:");
    assert_eq!(lines[2], format!("  {:<18} Exit Acme Code", "/exit, /q"));
    assert_eq!(lines[1], format!("  {:<18} Show this help", "/help, /h"));
    assert_eq!(lines[9], format!("  {:<18} Run prompts in parallel agents", "/multi <p1>; <p2>; ..."));
    assert_eq!(lines[10], "");
}

#[test]
fn multi_and_command_texts() {
    let usage = multi_usage_lines();
    assert_eq!(usage[0], "Usage: /multi <prompt1> [; <prompt2> [; ...]]");
    assert_eq!(spawning_line(3), "\n[Coordinator] Spawning 3 agents in parallel...");
    assert_eq!(agent_heading(0), "\n--- Agent 1 ---\n");
    let l = agent_result_line(1, Ok(String::new()));
    assert_eq!(l.text, "(no output)");
    let l = agent_result_line(1, Err("failed".to_string()));
    assert_eq!(l.text, "[Agent 2 error: failed]");
    assert!(l.to_stderr);
    assert!(matches!(command_reply(false, String::new(), String::new()), CommandReply::Exit));
    match command_reply(true, "out".to_string(), String::new()) {
        CommandReply::Show { stdout, stderr } => {
            assert_eq!(stdout, Some("out".to_string()));
            assert_eq!(stderr, None);
        },
        _ => panic!(),
    }
    assert_eq!(command_error_line("nope"), "[Command error: nope]");
}
