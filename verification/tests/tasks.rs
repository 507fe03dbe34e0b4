use std::path::PathBuf;
use open_cc::tools::task_tool::{TaskInput, TaskStore, TaskTool};
use open_cc::types::task::{TaskState, TaskStatus, TaskType};
use open_cc::types::tool::{ResultContentBlock, ToolResult};

fn make_tool() -> TaskTool {
    TaskTool::new(PathBuf::from("/tmp/open_cc_task_tests"))
}

fn input(action: &str, id: Option<&str>, description: Option<&str>, status: Option<&str>) -> TaskInput {
    TaskInput {
        action: action.to_string(),
        id: id.map(|s| s.to_string()),
        description: description.map(|s| s.to_string()),
        status: status.map(|s| s.to_string()),
    }
}

fn text_of(r: &ToolResult) -> String {
    match &r.content[0] {
        ResultContentBlock::Text { text } => text.clone(),
        _ => panic!("expected Text block"),
    }
}

#[test]
fn test_create_and_get() {
    let tool = make_tool();
    let mut store = TaskStore::new();
    let result = tool.call(&mut store, &input("create", None, Some("test task"), None)).unwrap();
    let text = text_of(&result);
    assert!(text.starts_with("Created task: "));
    let task_id = text.strip_prefix("Created task: ").unwrap().trim().to_string();

    let result = tool.call(&mut store, &input("get", Some(&task_id), None, None)).unwrap();
    let text = text_of(&result);
    assert!(text.contains("test task"));
    assert!(text.contains("pending"));
}

#[test]
fn test_list_empty() {
    let tool = make_tool();
    let mut store = TaskStore::new();
    let result = tool.call(&mut store, &input("list", None, None, None)).unwrap();
    assert_eq!(text_of(&result), "No tasks found.");
}

#[test]
fn test_list_after_create() {
    let tool = make_tool();
    let mut store = TaskStore::new();
    tool.call(&mut store, &input("create", None, Some("task A"), None)).unwrap();
    tool.call(&mut store, &input("create", None, Some("task B"), None)).unwrap();
    let result = tool.call(&mut store, &input("list", None, None, None)).unwrap();
    let text = text_of(&result);
    assert!(text.contains("task A"));
    assert!(text.contains("task B"));
}

#[test]
fn test_update_to_completed() {
    let tool = make_tool();
    let mut store = TaskStore::new();
    let result = tool.call(&mut store, &input("create", None, Some("update me"), None)).unwrap();
    let task_id = text_of(&result).strip_prefix("Created task: ").unwrap().trim().to_string();

    let result = tool.call(&mut store, &input("update", Some(&task_id), None, Some("completed"))).unwrap();
    assert!(text_of(&result).contains("completed"));

    let result = tool.call(&mut store, &input("get", Some(&task_id), None, None)).unwrap();
    let text = text_of(&result);
    assert!(text.contains("completed"));
    assert!(text.contains("end_time:"));
    assert!(text.contains("end_time: Some("));
}

#[test]
fn test_update_unknown_task() {
    let tool = make_tool();
    let mut store = TaskStore::new();
    let result = tool.call(&mut store, &input("update", Some("nonexistent-id"), None, Some("running")));
    assert!(result.is_err());
    assert!(result.unwrap_err().to_string().contains("not found"));
}

#[test]
fn test_get_unknown_task() {
    let tool = make_tool();
    let mut store = TaskStore::new();
    let result = tool.call(&mut store, &input("get", Some("bad-id"), None, None));
    assert!(result.is_err());
    assert!(result.unwrap_err().to_string().contains("not found"));
}

#[test]
fn test_create_missing_description() {
    let tool = make_tool();
    let mut store = TaskStore::new();
    let result = tool.call(&mut store, &input("create", None, None, None));
    assert!(result.is_err());
    assert!(result.unwrap_err().to_string().contains("description"));
}

#[test]
fn test_update_missing_status() {
    let tool = make_tool();
    let mut store = TaskStore::new();
    let result = tool.call(&mut store, &input("update", Some("some-id"), None, None));
    assert!(result.is_err());
    assert!(result.unwrap_err().to_string().contains("status"));
}

#[test]
fn test_unknown_action() {
    let tool = make_tool();
    let mut store = TaskStore::new();
    let result = tool.call(&mut store, &input("foobar", None, None, None));
    assert!(result.is_err());
    assert_eq!(result.unwrap_err().to_string(), "unknown action: foobar. Use create, list, update, or get.");
}

#[test]
fn update_with_unknown_status_changes_nothing() {
    let tool = make_tool();
    let mut store = TaskStore::new();
    let result = tool.call(&mut store, &input("create", None, Some("t"), None)).unwrap();
    let id = text_of(&result).strip_prefix("Created task: ").unwrap().to_string();
    let r = tool.call(&mut store, &input("update", Some(&id), None, Some("paused")));
    assert_eq!(r.unwrap_err().to_string(), "unknown status: paused");
    assert_eq!(store.tasks[0].status, TaskStatus::Pending);
    assert_eq!(store.tasks[0].end_time, None);
}

#[test]
fn update_to_running_records_no_end_time() {
    let tool = make_tool();
    let mut store = TaskStore::new();
    let result = tool.call(&mut store, &input("create", None, Some("t"), None)).unwrap();
    let id = text_of(&result).strip_prefix("Created task: ").unwrap().to_string();
    let r = tool.call(&mut store, &input("update", Some(&id), None, Some("running"))).unwrap();
    assert_eq!(text_of(&r), format!("Updated task {id} to status: running"));
    assert_eq!(store.tasks[0].status, TaskStatus::Running);
    assert_eq!(store.tasks[0].end_time, None);
}

#[test]
fn list_lines_and_ids() {
    let tool = make_tool();
    let mut store = TaskStore::new();
    tool.call(&mut store, &input("create", None, Some("first"), None)).unwrap();
    assert_eq!(store.tasks[0].id.len(), 36);
    let listed = text_of(&tool.call(&mut store, &input("list", None, None, None)).unwrap());
    assert_eq!(listed, format!("[{}] (pending) first", store.tasks[0].id));
}

#[test]
fn status_names_round_trip() {
    for s in [TaskStatus::Pending, TaskStatus::Running, TaskStatus::Completed, TaskStatus::Failed, TaskStatus::Killed] {
        assert_eq!(TaskTool::parse_status(TaskTool::format_status(s)).unwrap(), s);
    }
    assert!(TaskTool::parse_status("cancelled").is_err());
}

#[test]
fn task_state_lifecycle() {
    let mut t = TaskState::new("id-1".to_string(), TaskType::LocalBash, "run".to_string());
    assert_eq!(t.status, TaskStatus::Pending);
    assert_eq!(t.end_time, None);
    t.start();
    assert_eq!(t.status, TaskStatus::Running);
    t.complete();
    assert_eq!(t.status, TaskStatus::Completed);
    assert!(t.end_time.is_some());
    let mut u = TaskState::new("id-2".to_string(), TaskType::LocalBash, "run".to_string());
    u.fail();
    assert_eq!(u.status, TaskStatus::Failed);
    let mut v = TaskState::new("id-3".to_string(), TaskType::LocalBash, "run".to_string());
    v.kill();
    assert_eq!(v.status, TaskStatus::Killed);
    assert!(v.end_time.is_some());
}

#[test]
fn task_render() {
    let tool = make_tool();
    assert_eq!(tool.render_use_message("{\"action\":\"list\"}"), "Using Task tool with args: {\"action\":\"list\"}");
    assert_eq!(tool.render_result_message(&ToolResult::text("done".to_string())), "done");
}
