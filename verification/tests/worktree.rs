use open_cc::tools::enter_worktree::{validate_worktree_slug, EnterWorktreeInput, EnterWorktreeTool};
use open_cc::tools::exit_worktree::ExitWorktreeTool;
use open_cc::types::tool::Tool;

#[test]
fn test_validate_worktree_slug_valid() {
    assert!(validate_worktree_slug("my-worktree").is_ok());
    assert!(validate_worktree_slug("feature_123").is_ok());
    assert!(validate_worktree_slug("v1.2.3").is_ok());
    assert!(validate_worktree_slug("a-b_c.d").is_ok());
    assert!(validate_worktree_slug("").is_ok());
}

#[test]
fn test_validate_worktree_slug_invalid_chars() {
    let result = validate_worktree_slug("worktree/branch");
    assert!(result.is_err());
    assert!(result.unwrap_err().contains("may only contain"));

    let result = validate_worktree_slug("worktree space");
    assert!(result.is_err());

    let result = validate_worktree_slug("worktree@branch");
    assert!(result.is_err());
}

#[test]
fn test_validate_worktree_slug_too_long() {
    let long_name = "a".repeat(65);
    let result = validate_worktree_slug(&long_name);
    assert!(result.is_err());
    assert!(result.unwrap_err().contains("at most 64 characters"));
}

#[test]
fn enter_worktree_test_tool_name() {
    let tool = EnterWorktreeTool::new();
    assert_eq!(tool.name(), "EnterWorktree");
}

#[test]
fn enter_worktree_test_tool_is_not_read_only() {
    let tool = EnterWorktreeTool::new();
    assert!(!tool.is_read_only());
}

#[test]
fn test_render_use_message_with_name() {
    let tool = EnterWorktreeTool::new();
    let input = EnterWorktreeInput { name: Some("my-branch".to_string()) };
    assert_eq!(tool.render_use_message(Some(&input)), "Creating worktree: my-branch");
}

#[test]
fn test_render_use_message_without_name() {
    let tool = EnterWorktreeTool::new();
    let input = EnterWorktreeInput { name: None };
    assert_eq!(tool.render_use_message(Some(&input)), "Creating worktree with auto-generated name");
}

#[test]
fn exit_worktree_test_tool_name() {
    let tool = ExitWorktreeTool::new();
    assert_eq!(tool.name(), "ExitWorktree");
}

#[test]
fn exit_worktree_test_tool_is_not_read_only() {
    let tool = ExitWorktreeTool::new();
    assert!(!tool.is_read_only());
}

#[test]
fn test_render_use_message() {
    let tool = ExitWorktreeTool::new();
    assert_eq!(tool.render_use_message(), "Leaving worktree");
}

#[test]
fn slug_of_exactly_64_characters_is_accepted() {
    let name = "b".repeat(64);
    assert!(validate_worktree_slug(&name).is_ok());
}

#[test]
fn slug_error_texts_are_exact() {
    let too_long = validate_worktree_slug(&"x".repeat(70)).unwrap_err();
    assert!(too_long.contains("at most 64 characters"));
    let bad = validate_worktree_slug("a b").unwrap_err();
    assert!(bad.contains("may only contain"));
}

#[test]
fn enter_worktree_call_validates_the_name() {
    let tool = EnterWorktreeTool::new();
    let bad = EnterWorktreeInput { name: Some("bad/name".to_string()) };
    let res = tool.call(Ok(&bad)).unwrap();
    assert!(res.is_error);
    assert!(res.content[0].preview().contains("may only contain"));
    let res = tool.call(Ok(&EnterWorktreeInput { name: Some("ok-name".to_string()) })).unwrap();
    assert_eq!(res.content[0].preview(), "Worktree operations are not available in this context.");
    let res = tool.call(Err("invalid type: integer `3`, expected a string")).unwrap();
    assert!(res.is_error);
    assert_eq!(res.content[0].preview(), "invalid input: invalid type: integer `3`, expected a string");
}

#[test]
fn slug_length_counts_characters() {
    let accented = "é".repeat(40);
    assert!(validate_worktree_slug(&accented).is_ok());
    let err = validate_worktree_slug(&"é".repeat(65)).unwrap_err();
    assert_eq!(err, "worktree slug must be at most 64 characters, got 65");
}
