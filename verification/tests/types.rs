use open_cc::error::CliError;
use open_cc::types::message::{AssistantContent, ContentBlock, Message, UserContent};
use open_cc::types::permission::PermissionMode;
use open_cc::types::session::{default_system_prompt, Session, SessionConfig, TokenUsage};
use open_cc::types::task::TaskType;
use open_cc::types::tool::{ResultContentBlock, ToolResult};

#[test]
fn test_session_new() {
    let session = Session::new("test-123".to_string(), "opus-4-5".to_string());
    assert_eq!(session.id, "test-123");
    assert_eq!(session.model, "opus-4-5");
    assert!(session.messages.is_empty());
    assert_eq!(f64::from_bits(session.cost_bits), 0.0);
}

#[test]
fn test_session_add_message() {
    let mut session = Session::new("test-123".to_string(), "opus-4-5".to_string());
    session.add_message(Message::User { content: UserContent::text("Hello".to_string()) });
    assert_eq!(session.messages.len(), 1);
    assert!(session.updated_at >= session.created_at);
}

#[test]
fn test_session_token_tracking() {
    let mut session = Session::new("test-123".to_string(), "opus-4-5".to_string());
    session.token_usage.input_tokens = 100;
    session.token_usage.output_tokens = 50;
    assert_eq!(session.input_tokens(), 100);
    assert_eq!(session.output_tokens(), 50);
    assert_eq!(session.total_tokens(), 150);
}

#[test]
fn test_session_config_default() {
    let config = SessionConfig::with_defaults("opus-4-5".to_string());
    assert_eq!(config.model, "opus-4-5");
    assert_eq!(config.max_tokens, Some(8192));
}

#[test]
fn test_session_with_permission_mode() {
    let config = SessionConfig::with_defaults("opus-4-5".to_string()).with_permission_mode(PermissionMode::BypassPermissions);
    assert_eq!(config.permission_mode, PermissionMode::BypassPermissions);
}

#[test]
fn test_error_display() {
    let err = CliError::ApiKeyNotFound;
    let display = err.to_string();
    assert!(!display.is_empty());
}

#[test]
fn test_cli_error_display() {
    let errors = [
        CliError::ApiKeyNotFound,
        CliError::Session("test session error".to_string()),
        CliError::Mcp("mcp error".to_string()),
        CliError::Io("not found".to_string()),
        CliError::Other("other error".to_string()),
    ];
    for e in errors {
        let display = e.to_string();
        assert!(!display.is_empty(), "error display should not be empty");
    }
}

#[test]
fn test_cli_error_session_not_found() {
    let err = CliError::Session("session not found".to_string());
    let msg = err.to_string();
    assert!(msg.contains("session not found") || msg.contains("Session"));
}

#[test]
fn error_texts() {
    assert_eq!(CliError::ToolExecution("x".to_string()).to_string(), "Tool execution error: x");
    assert_eq!(CliError::Other("plain".to_string()).to_string(), "plain");
    assert_eq!(CliError::Json("bad".to_string()).to_string(), "JSON error: bad");
}

#[test]
fn test_user_content_text() {
    let content = UserContent::text("Test message".to_string());
    assert_eq!(content.content.len(), 1);
    assert!(matches!(&content.content[0], ContentBlock::Text { .. }));
}

#[test]
fn test_user_content_text_preview() {
    let content = UserContent::text("This is a long message".to_string());
    let preview = content.text_preview();
    assert_eq!(preview, Some("This is a long message".to_string()));
}

#[test]
fn test_user_content_empty() {
    let content = UserContent { content: vec![] };
    assert_eq!(content.text_preview(), None);
}

#[test]
fn assistant_preview_skips_non_text_blocks() {
    let content = AssistantContent {
        content: vec![
            ContentBlock::ToolResult { tool_use_id: "t".to_string(), content: "r".to_string() },
            ContentBlock::Text { text: "second".to_string() },
            ContentBlock::Text { text: "third".to_string() },
        ],
        model: "m".to_string(),
        stop_reason: None,
    };
    assert_eq!(content.text_preview(), Some("second".to_string()));
}

#[test]
fn test_token_usage_add() {
    let mut usage = TokenUsage { input_tokens: 100, output_tokens: 50, cache_creation_tokens: 0, cache_read_tokens: 0 };
    usage.add(&TokenUsage { input_tokens: 20, output_tokens: 10, cache_creation_tokens: 5, cache_read_tokens: 15 });
    assert_eq!(usage.input_tokens, 120);
    assert_eq!(usage.output_tokens, 60);
    assert_eq!(usage.cache_creation_tokens, 5);
    assert_eq!(usage.cache_read_tokens, 15);
    assert_eq!(usage.total(), 200);
}

#[test]
fn test_token_usage_total_includes_cache() {
    let usage = TokenUsage { input_tokens: 100, output_tokens: 50, cache_creation_tokens: 30, cache_read_tokens: 20 };
    assert_eq!(usage.total(), 200);
}

#[test]
fn token_totals_add_up() {
    let a = TokenUsage { input_tokens: 1, output_tokens: 2, cache_creation_tokens: 3, cache_read_tokens: 4 };
    let b = TokenUsage { input_tokens: 10, output_tokens: 20, cache_creation_tokens: 30, cache_read_tokens: 40 };
    let mut s = a;
    s.add(&b);
    assert_eq!(s.total(), a.total() + b.total());
    assert_eq!(TokenUsage::default().total(), 0);
}

#[test]
fn test_permission_mode_from_str() {
    assert_eq!("acceptEdits".parse::<PermissionMode>().unwrap(), PermissionMode::AcceptEdits);
    assert_eq!("bypassPermissions".parse::<PermissionMode>().unwrap(), PermissionMode::BypassPermissions);
    assert_eq!("plan".parse::<PermissionMode>().unwrap(), PermissionMode::Plan);
    assert_eq!("auto".parse::<PermissionMode>().unwrap(), PermissionMode::Auto);
    assert!("invalid_mode".parse::<PermissionMode>().is_err());
}

#[test]
fn test_permission_mode_display() {
    assert_eq!(PermissionMode::AcceptEdits.to_string(), "acceptEdits");
    assert_eq!(PermissionMode::BypassPermissions.to_string(), "bypassPermissions");
    assert_eq!(PermissionMode::Plan.to_string(), "plan");
}

#[test]
fn permission_names_round_trip() {
    for mode in [
        PermissionMode::Default,
        PermissionMode::AcceptEdits,
        PermissionMode::BypassPermissions,
        PermissionMode::Plan,
        PermissionMode::DontAsk,
        PermissionMode::Auto,
        PermissionMode::Bubble,
    ] {
        assert_eq!(PermissionMode::parse(&mode.to_string()).unwrap(), mode);
    }
    assert_eq!(PermissionMode::parse("nope").unwrap_err(), "unknown permission mode: nope");
    assert_eq!(PermissionMode::default(), PermissionMode::Default);
}

#[test]
fn tool_result_previews() {
    let r = ToolResult {
        content: vec![
            ResultContentBlock::Text { text: "a".to_string() },
            ResultContentBlock::ToolUse { id: "1".to_string(), name: "Bash".to_string(), input: serde_json::Value::Null },
            ResultContentBlock::ToolResult { tool_use_id: "1".to_string(), content: "c".to_string() },
        ],
        is_error: false,
        metrics: None,
    };
    assert_eq!(r.content[1].preview(), "[tool: Bash]");
    assert_eq!(open_cc::types::tool::default_render_result_message(&r), "a; [tool: Bash]; c");
    let long = ToolResult::text("z".repeat(250));
    assert_eq!(open_cc::types::tool::default_render_result_message(&long), format!("{}...", "z".repeat(200)));
}

#[test]
fn task_type_names() {
    assert_eq!(TaskType::LocalBash.to_string(), "local_bash");
    assert_eq!(TaskType::InProcessTeammate.to_string(), "in_process_teammate");
}

#[test]
fn system_prompt_mentions_the_tools() {
    let prompt = default_system_prompt("Acme Code", "Acme Labs");
    assert!(prompt.starts_with("You are Acme Code, an AI assistant built by Acme Labs.\nYour knowledge cutoff"));
    assert!(prompt.contains("Available tools: bash, read, write, edit, grep, glob, web_fetch, web_search."));
    assert!(prompt.ends_with("say so rather than guessing.\n"));
}

#[test]
fn test_session_cost_tracking() {
    let mut session = Session::new("test-123".to_string(), "opus-4-5".to_string());
    assert_eq!(f64::from_bits(session.cost_bits), 0.0);
    session.cost_bits = (f64::from_bits(session.cost_bits) + 0.05).to_bits();
    assert_eq!(f64::from_bits(session.cost_bits), 0.05);
}

#[test]
fn test_session_messages_full_flow() {
    let mut session = Session::new("test-flow".to_string(), "opus-4-5".to_string());

    session.add_message(Message::User { content: UserContent::text("Hello".to_string()) });
    session.add_message(Message::Assistant {
        content: Some(AssistantContent {
            content: vec![ContentBlock::Text { text: "Hi there!".to_string() }],
            model: "opus-4-5".to_string(),
            stop_reason: Some("end_turn".to_string()),
        }),
    });
    session.add_message(Message::ToolResult {
        tool_use_id: "tool_1".to_string(),
        content: "done".to_string(),
        is_error: false,
    });

    assert_eq!(session.messages.len(), 3);
}
