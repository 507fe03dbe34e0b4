use open_cc::error::CliError;
use open_cc::tools::agent_tool::{AgentBackend, AgentTool, AgentToolInput};
use open_cc::tools::exit_plan_mode::{AllowedPrompt, ExitPlanModeInput, ExitPlanModeTool};
use open_cc::tools::list_mcp_resources::{ListMcpResourcesInput, ListMcpResourcesTool};
use open_cc::tools::lsp::{operations, LspInput, LspTool};
use open_cc::tools::notebook_edit::{default_edit_mode, NotebookEditInput, NotebookEditTool};
use open_cc::tools::read_mcp_resource::{ReadMcpResourceInput, ReadMcpResourceTool};
use open_cc::tools::remote_trigger::{actions, RemoteTriggerInput, RemoteTriggerTool};
use open_cc::tools::repl::{ReplInput, ReplTool};
use open_cc::tools::schedule_cron::ScheduleCronTool;
use open_cc::tools::sleep::SleepTool;
use open_cc::tools::team_create::TeamCreateTool;
use open_cc::tools::task_create::TaskCreateTool;
use open_cc::types::tool::{ResultContentBlock, Tool, ToolResult};

fn text(r: &ToolResult) -> String {
    match &r.content[0] {
        ResultContentBlock::Text { text } => text.clone(),
        _ => panic!(),
    }
}

#[test]
fn mcp_resource_tools() {
    let list = ListMcpResourcesTool::new();
    let r = list.call(Ok(&ListMcpResourcesInput { server: None })).unwrap();
    assert!(r.is_error);
    assert_eq!(text(&r), "MCP resources require a connected MCP server.");
    let r = list.call(Err("bad")).unwrap();
    assert_eq!(text(&r), "invalid input: bad");
    assert_eq!(
        list.render_use_message(Some(&ListMcpResourcesInput { server: Some("fs".to_string()) })),
        "Listing MCP resources from server: fs"
    );
    assert_eq!(list.render_use_message(Some(&ListMcpResourcesInput { server: None })), "Listing MCP resources from all servers");
    assert_eq!(list.render_use_message(None), "Listing MCP resources");

    let read = ReadMcpResourceTool::new();
    let input = ReadMcpResourceInput { server: "fs".to_string(), uri: "file:///a".to_string() };
    assert_eq!(read.render_use_message(Some(&input)), "Reading MCP resource: file:///a from server: fs");
    assert!(read.is_read_only());
}

#[test]
fn plan_and_team_tools() {
    let exit = ExitPlanModeTool::new();
    let one = ExitPlanModeInput {
        allowed_prompts: Some(vec![AllowedPrompt { tool: "Bash".to_string(), prompt: "run tests".to_string() }]),
    };
    assert_eq!(exit.render_use_message(Some(&one)), "Exiting plan mode (1 allowed prompt)");
    let none = ExitPlanModeInput { allowed_prompts: Some(vec![]) };
    assert_eq!(exit.render_use_message(Some(&none)), "Exiting plan mode (0 allowed prompts)");
    assert_eq!(exit.render_use_message(None), "Exiting plan mode");
    assert!(exit.call().unwrap().is_error);
    assert!(exit.is_concurrency_safe());

    let team = TeamCreateTool::new();
    assert_eq!(team.render_use_message(Some("alpha")), "Creating team: alpha");
    assert_eq!(team.render_use_message(None), "Creating a new team");
    assert_eq!(text(&team.call().unwrap()), "Team creation requires the coordinator system.");
}

#[test]
fn lsp_tool() {
    let lsp = LspTool::new();
    let input = LspInput { operation: "hover".to_string(), file_path: "src/main.rs".to_string(), line: 3, character: 14 };
    assert_eq!(lsp.render_use_message(Some(&input)), "LSP hover on src/main.rs:3:14");
    match lsp.call(Ok(&input)) {
        Err(CliError::ToolExecution(m)) => assert_eq!(m, "This tool requires the TUI/system integration."),
        _ => panic!(),
    }
    assert_eq!(operations().len(), 9);
    assert_eq!(lsp.render_result_message(&ToolResult::text("x".to_string())), "LSP operation completed.");
}

#[test]
fn notebook_and_repl_tools() {
    let nb = NotebookEditTool::new();
    assert_eq!(default_edit_mode(), "replace");
    let input = NotebookEditInput {
        notebook_path: "a.ipynb".to_string(),
        cell_id: None,
        new_source: "s".repeat(70),
        cell_type: None,
        edit_mode: default_edit_mode(),
    };
    assert_eq!(nb.render_use_message(Some(&input)), format!("Editing notebook a.ipynb (mode: replace): {}", "s".repeat(60)));
    match nb.call(Err("expected string")) {
        Err(CliError::ToolExecution(m)) => assert_eq!(m, "Invalid input: expected string"),
        _ => panic!(),
    }

    let repl = ReplTool::new();
    let input = ReplInput { command: "print(1)".to_string(), context: None };
    assert_eq!(repl.render_use_message(Some(&input)), "REPL [default]: print(1)");
    let input = ReplInput { command: "1+1".to_string(), context: Some("python".to_string()) };
    assert_eq!(repl.render_use_message(Some(&input)), "REPL [python]: 1+1");
    assert_eq!(repl.render_result_message(&ToolResult::error("x".to_string())), "REPL command failed.");
}

#[test]
fn remote_trigger_tool() {
    let rt = RemoteTriggerTool::new("example.com".to_string());
    assert!(rt.description().ends_with("Requires authentication with a example.com account."));
    let mk = |a: &str, id: Option<&str>| RemoteTriggerInput { action: a.to_string(), trigger_id: id.map(|s| s.to_string()), body: None };
    assert_eq!(rt.render_use_message(Some(&mk("list", None))), "Listing remote triggers");
    assert_eq!(rt.render_use_message(Some(&mk("get", Some("t1")))), "Getting remote trigger: t1");
    assert_eq!(rt.render_use_message(Some(&mk("get", None))), "RemoteTrigger action: get");
    assert_eq!(rt.render_use_message(Some(&mk("create", None))), "Creating remote trigger");
    assert_eq!(rt.render_use_message(Some(&mk("update", Some("t2")))), "Updating remote trigger: t2");
    assert_eq!(rt.render_use_message(Some(&mk("run", Some("t3")))), "Running remote trigger: t3");
    assert_eq!(rt.render_use_message(Some(&mk("delete", Some("t3")))), "RemoteTrigger action: delete");
    assert_eq!(rt.render_use_message(None), "Running RemoteTrigger action");
    assert_eq!(actions(), vec!["list", "get", "create", "update", "run"]);
}

struct EchoBackend;

impl AgentBackend for EchoBackend {
    fn run_agent(&self, prompt: String, system_prompt: Option<String>) -> Result<String, CliError> {
        match system_prompt {
            Some(s) => Ok(format!("{s}: {prompt}")),
            None if prompt == "fail" => Err(CliError::Other("agent failed".to_string())),
            None => Ok(prompt),
        }
    }
}

#[test]
fn agent_tool_runs_the_backend() {
    let agent = AgentTool::new(EchoBackend);
    let r = agent.call(Ok(&AgentToolInput { prompt: "hi".to_string(), system_prompt: None })).unwrap();
    assert_eq!(text(&r), "hi");
    assert!(r.metrics.is_none());
    let r = agent
        .call(Ok(&AgentToolInput { prompt: "hi".to_string(), system_prompt: Some("sys".to_string()) }))
        .unwrap();
    assert_eq!(text(&r), "sys: hi");
    match agent.call(Ok(&AgentToolInput { prompt: "fail".to_string(), system_prompt: None })) {
        Err(CliError::Other(m)) => assert_eq!(m, "agent failed"),
        _ => panic!(),
    }
    match agent.call(Err("missing field `prompt`")) {
        Err(CliError::Other(m)) => assert_eq!(m, "invalid agent input: missing field `prompt`"),
        _ => panic!(),
    }
}

#[test]
fn agent_tool() {
    let agent = AgentTool::new(EchoBackend);
    assert_eq!(agent.render_use_message(Some("summarise the repo")), "agent: summarise the repo");
    assert_eq!(agent.render_use_message(Some(&"p".repeat(90))), format!("agent: {}", "p".repeat(80)));
    assert_eq!(agent.render_use_message(None), "agent");
    let r = agent.finish(Ok("done".to_string())).unwrap();
    assert_eq!(text(&r), "done");
    assert!(agent.finish(Err(CliError::Other("x".to_string()))).is_err());
    match agent.input_error("missing prompt") {
        CliError::Other(m) => assert_eq!(m, "invalid agent input: missing prompt"),
        _ => panic!(),
    }
    let r = ToolResult {
        content: vec![
            ResultContentBlock::Text { text: "a".to_string() },
            ResultContentBlock::ToolResult { tool_use_id: "1".to_string(), content: "skip".to_string() },
            ResultContentBlock::Text { text: "b".to_string() },
        ],
        is_error: false,
        metrics: None,
    };
    assert_eq!(agent.render_result_message(&r), "ab");
    assert_eq!(agent.name(), "agent");
    assert_eq!(agent.aliases(), vec!["subagent".to_string()]);
}

#[test]
fn coordinator_stubs() {
    let sleep = SleepTool::new();
    let r = sleep.call().unwrap();
    assert!(r.is_error);
    assert_eq!(text(&r), "This tool requires the TUI/coordinator system.");
    assert_eq!(sleep.render_use_message("{}"), "Using Sleep with args: {}");
    let cron = ScheduleCronTool::new();
    assert_eq!(cron.name(), "CronCreate");
    assert_eq!(cron.aliases(), vec!["CronDelete".to_string(), "CronList".to_string()]);
    match TaskCreateTool::new().call() {
        Err(CliError::Other(m)) => assert_eq!(m, "Task management requires the coordinator system."),
        _ => panic!(),
    }
}

#[test]
fn agent_request_is_the_prompt_and_system_prompt() {
    let agent = AgentTool::new(EchoBackend);
    let input = AgentToolInput { prompt: "plan it".to_string(), system_prompt: Some("be brief".to_string()) };
    assert_eq!(agent.request(&input), ("plan it".to_string(), Some("be brief".to_string())));
    let input = AgentToolInput { prompt: "go".to_string(), system_prompt: None };
    assert_eq!(agent.request(&input), ("go".to_string(), None));
}
