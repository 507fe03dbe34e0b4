use open_cc::error::CliError;
use open_cc::tools::send_message::{default_message_type, AgentMessage, Mailbox, SendMessageInput, SendMessageTool};
use open_cc::types::tool::ResultContentBlock;

fn sentinel() -> AgentMessage {
    AgentMessage {
        from: String::new(),
        to: String::new(),
        message: String::new(),
        message_type: String::new(),
        request_id: None,
        timestamp: 0,
    }
}

fn send_input(to: &str, message: &str, message_type: &str, request_id: Option<&str>) -> SendMessageInput {
    SendMessageInput {
        to: to.to_string(),
        message: message.to_string(),
        message_type: message_type.to_string(),
        request_id: request_id.map(|s| s.to_string()),
    }
}

#[test]
fn test_send_to_specific_teammate() {
    let mut mb = Mailbox::new();
    mb.clear();

    let tool = SendMessageTool::new();
    let input = send_input("coder", "Please refactor the auth module", "plain", None);

    let result = tool.deliver(&mut mb, "team-lead", &input);
    assert!(result.contains("coder"));
    assert!(result.contains("delivered"));

    let messages = mb.drain("coder");
    assert_eq!(messages.len(), 1);
    assert_eq!(messages[0].from, "team-lead");
    assert_eq!(messages[0].to, "coder");
    assert_eq!(messages[0].message_type, "plain");
}

#[test]
fn test_broadcast_to_all() {
    let mut mb = Mailbox::new();
    mb.clear();

    mb.push("alice", sentinel());
    mb.push("bob", sentinel());

    let tool = SendMessageTool::new();
    let input = send_input("all", "Deploy in 5 minutes", "plain", None);

    let result = tool.deliver(&mut mb, "team-lead", &input);
    assert!(result.contains("broadcast"));
    assert!(result.contains("alice") && result.contains("bob"));

    let alice_msgs = mb.drain("alice");
    let bob_msgs = mb.drain("bob");
    assert_eq!(alice_msgs.len(), 2, "alice: sentinel + broadcast");
    assert_eq!(bob_msgs.len(), 2, "bob: sentinel + broadcast");
    assert_eq!(alice_msgs[1].from, "team-lead");
    assert_eq!(bob_msgs[1].from, "team-lead");
}

#[test]
fn test_structured_message_types() {
    let mut mb = Mailbox::new();
    mb.clear();

    let tool = SendMessageTool::new();
    let shutdown = send_input("worker-1", "please stop", "shutdown_request", Some("req-42"));
    tool.deliver(&mut mb, "team-lead", &shutdown);

    let msgs = mb.drain("worker-1");
    assert_eq!(msgs.len(), 1);
    assert_eq!(msgs[0].message_type, "shutdown_request");
    assert_eq!(msgs[0].request_id.as_deref(), Some("req-42"));
}

#[test]
fn test_message_timestamp() {
    let mut mb = Mailbox::new();
    let tool = SendMessageTool::new();
    let before = chrono::Utc::now().timestamp_millis();
    tool.deliver(&mut mb, "sender", &send_input("receiver", "hello", "plain", None));
    let after = chrono::Utc::now().timestamp_millis();
    let msgs = mb.drain("receiver");
    assert_eq!(msgs.len(), 1);
    assert!(msgs[0].timestamp >= before);
    assert!(msgs[0].timestamp <= after);
}

#[test]
fn broadcast_skips_the_sender_and_reports_the_count() {
    let mut mb = Mailbox::new();
    mb.push("alice", sentinel());
    mb.push("bob", sentinel());
    let tool = SendMessageTool::new();
    let r = tool.deliver_at(&mut mb, "alice", &send_input("all", "hi", "plain", None), 5);
    assert_eq!(r, "Message broadcast to 1 teammate(s): bob");
    assert_eq!(mb.drain("alice").len(), 1);
    let bob = mb.drain("bob");
    assert_eq!(bob.len(), 2);
    assert_eq!(bob[1].timestamp, 5);
}

#[test]
fn broadcast_without_teammates_is_kept_for_later() {
    let mut mb = Mailbox::new();
    let tool = SendMessageTool::new();
    let r = tool.deliver_at(&mut mb, "lead", &send_input("all", "hi", "plain", None), 1);
    assert_eq!(r, "Broadcast queued for future teammates. No current teammates registered.");
    assert!(mb.has_messages("all"));
    assert_eq!(mb.drain("all").len(), 1);
}

#[test]
fn direct_message_confirmation_and_drain_twice() {
    let mut mb = Mailbox::new();
    let tool = SendMessageTool::new();
    let r = tool.deliver_at(&mut mb, "lead", &send_input("coder", "x", "plain", None), 1);
    assert_eq!(r, "Message delivered to 'coder'.");
    assert_eq!(mb.teammates(), vec!["coder".to_string()]);
    assert_eq!(mb.drain("coder").len(), 1);
    assert!(mb.drain("coder").is_empty());
    assert!(!mb.has_messages("coder"));
}

#[test]
fn call_reports_the_confirmation_or_the_input_error() {
    let mut mb = Mailbox::new();
    let tool = SendMessageTool::new();
    let res = tool.call(&mut mb, "lead", Ok(&send_input("coder", "x", "plain", None))).unwrap();
    assert!(!res.is_error);
    match &res.content[0] {
        ResultContentBlock::Text { text } => assert_eq!(text, "Message delivered to 'coder'."),
        _ => panic!(),
    }
    match tool.call(&mut mb, "lead", Err("missing field `to`")) {
        Err(CliError::ToolExecution(m)) => assert_eq!(m, "invalid input: missing field `to`"),
        _ => panic!(),
    }
}

#[test]
fn send_message_render_and_default_type() {
    let tool = SendMessageTool::new();
    assert_eq!(default_message_type(), "plain");
    let long = "m".repeat(61);
    assert_eq!(
        tool.render_use_message(Some(&send_input("bob", &long, "plain", None))),
        format!("Sending message to 'bob': {}...", "m".repeat(60))
    );
    assert_eq!(tool.render_use_message(None), "Sending a message");
}

#[test]
fn broadcast_queue_is_no_teammate() {
    let mut mb = Mailbox::new();
    let tool = SendMessageTool::new();
    let first = tool.deliver_at(&mut mb, "lead", &send_input("all", "early", "plain", None), 1);
    assert_eq!(first, "Broadcast queued for future teammates. No current teammates registered.");
    let second = tool.deliver_at(&mut mb, "lead", &send_input("all", "again", "plain", None), 2);
    assert_eq!(second, "Broadcast queued for future teammates. No current teammates registered.");
    mb.push("alice", sentinel());
    let third = tool.deliver_at(&mut mb, "lead", &send_input("all", "hi", "plain", None), 3);
    assert_eq!(third, "Message broadcast to 1 teammate(s): alice");
    assert_eq!(mb.drain("all").len(), 2);
    assert_eq!(mb.drain("alice").len(), 2);
}
