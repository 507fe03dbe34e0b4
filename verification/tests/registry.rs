use std::path::PathBuf;
use open_cc::tools::registry::ToolRegistry;
use open_cc::tools::builtin::BuiltinTool;
use open_cc::tools::bash::BashTool;
use open_cc::tools::glob::GlobTool;
use open_cc::tools::grep::GrepTool;
use open_cc::types::tool::Tool;

fn builtins() -> ToolRegistry<BuiltinTool> {
    ToolRegistry::register_builtins(PathBuf::from("/tmp/open_cc_registry_tests"), "example.com".to_string())
}

#[test]
fn test_tool_registry_builtins() {
    let registry = builtins();
    let tools = registry.get_all();
    assert!(!tools.is_empty(), "should register built-in tools");

    let names: Vec<_> = registry.names();
    assert!(names.iter().any(|n| n == "Bash"), "should have Bash tool");
    assert!(names.iter().any(|n| n == "Glob"), "should have Glob tool");
    assert!(names.iter().any(|n| n == "Grep"), "should have Grep tool");
}

#[test]
fn test_tool_registry_get_by_name() {
    let registry = builtins();
    let bash = registry.get("Bash");
    assert!(bash.is_some(), "should find Bash by name");
    assert_eq!(bash.unwrap().name(), "Bash");
}

#[test]
fn test_tool_registry_get_by_alias() {
    let registry = builtins();
    let shell = registry.get("shell");
    assert!(shell.is_some(), "should find Bash by alias 'shell'");
    assert_eq!(shell.unwrap().name(), "Bash");
}

#[test]
fn test_tool_registry_filter_allowed() {
    let registry = builtins();
    let filtered = registry.filter(&["Bash".to_string()], &[]);
    assert_eq!(filtered.len(), 1, "should filter to only Bash");
    assert_eq!(filtered[0].name(), "Bash");
}

#[test]
fn test_tool_registry_filter_denied() {
    let registry = builtins();
    let filtered = registry.filter(&[], &["Bash".to_string()]);
    let names: Vec<_> = filtered.iter().map(|t| t.name()).collect();
    assert!(!names.contains(&"Bash"), "Bash should be denied");
}

#[test]
fn test_tool_registry_filter_wildcard() {
    let registry = builtins();
    let filtered = registry.filter(&[], &["*".to_string()]);
    assert!(filtered.is_empty(), "wildcard deny should block all tools");
}

#[test]
fn test_tool_registry_aliases() {
    let registry = builtins();

    let bash = registry.get("shell").expect("shell alias should resolve to Bash");
    assert_eq!(bash.name(), "Bash");

    let glob = registry.get("glob").expect("glob alias should resolve to Glob");
    assert_eq!(glob.name(), "Glob");

    let grep = registry.get("grep").expect("grep alias should resolve to Grep");
    assert_eq!(grep.name(), "Grep");
}

#[test]
fn builtins_hold_the_main_tools_and_one_of_each_name() {
    let registry = builtins();
    let names = registry.names();
    for tool in ["Bash", "Glob", "Grep", "Read", "Write", "Edit", "WebFetch", "WebSearch", "Task"] {
        assert!(names.iter().any(|n| n == tool), "missing tool: {tool}");
    }
    // The library holds 40 built-in tools; see README.md for the ten that
    // have no implementation here.
    assert_eq!(names.len(), 40);
    assert_eq!(&names[..3], &["Bash".to_string(), "Read".to_string(), "Write".to_string()]);
    assert_eq!(names[39], "REPL");
    let mut sorted = names.clone();
    sorted.sort();
    sorted.dedup();
    assert_eq!(sorted.len(), 40);
}

#[test]
fn wildcard_allow_lets_every_builtin_through() {
    let registry = builtins();
    let all = registry.filter(&["*".to_string()], &[]);
    assert_eq!(all.len(), registry.names().len());
}

#[test]
fn a_later_alias_wins() {
    let registry = builtins();
    // Both Grep and WebSearch call themselves "search"; WebSearch comes later.
    assert_eq!(registry.get("search").unwrap().name(), "WebSearch");
    // Both Grep and Glob call themselves "find"; Glob comes later.
    assert_eq!(registry.get("find").unwrap().name(), "Glob");
    assert!(registry.get("no-such-tool").is_none());
}

#[test]
fn register_replaces_a_tool_of_the_same_name() {
    let mut registry: ToolRegistry<BuiltinTool> = ToolRegistry::new();
    registry.register(BuiltinTool::Bash(BashTool::new()));
    registry.register(BuiltinTool::Grep(GrepTool::new()));
    registry.register(BuiltinTool::Bash(BashTool::new()));
    assert_eq!(registry.names(), vec!["Bash".to_string(), "Grep".to_string()]);
    assert_eq!(registry.get("exec").unwrap().name(), "Bash");
}

#[test]
fn register_all_keeps_order_and_aliases() {
    let mut registry: ToolRegistry<BuiltinTool> = ToolRegistry::default();
    registry.register_all(vec![BuiltinTool::Grep(GrepTool::new()), BuiltinTool::Glob(GlobTool::new())]);
    assert_eq!(registry.names(), vec!["Grep".to_string(), "Glob".to_string()]);
    assert_eq!(registry.get("find").unwrap().name(), "Glob");
    assert_eq!(registry.get("grep").unwrap().name(), "Grep");
}

#[test]
fn filter_allows_named_and_denies_named() {
    let registry = builtins();
    let f = registry.filter(&["Bash".to_string(), "Grep".to_string()], &["Grep".to_string()]);
    let names: Vec<_> = f.iter().map(|t| t.name()).collect();
    assert_eq!(names, vec!["Bash"]);
}

#[test]
fn test_builtin_tool_reports_the_wrapped_tools_flags() {
    let registry = builtins();
    let read = registry.get("Read").unwrap();
    assert!(read.is_read_only());
    assert!(!read.is_destructive());
    assert!(read.is_enabled());
    let edit = registry.get("Edit").unwrap();
    assert!(edit.is_destructive());
    assert!(!edit.is_read_only());
    let plan = registry.get("EnterPlanMode").unwrap();
    assert!(plan.is_concurrency_safe());
    let glob = registry.get("Glob").unwrap();
    assert_eq!(glob.description(), "Find files matching a glob pattern.");
}

#[test]
fn filter_by_name_and_by_denial() {
    let registry = builtins();
    let only_bash = registry.filter(&["Bash".to_string()], &[]);
    assert_eq!(only_bash.len(), 1);
    assert_eq!(only_bash[0].name(), "Bash");
    let no_bash = registry.filter(&[], &["Bash".to_string()]);
    assert!(no_bash.iter().all(|t| t.name() != "Bash"));
    assert_eq!(no_bash.len(), 39);
    assert!(registry.filter(&[], &["*".to_string()]).is_empty());
    assert_eq!(registry.filter(&["*".to_string()], &[]).len(), 40);
}
