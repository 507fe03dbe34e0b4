//! The built-in tools as one type, so that one registry can hold them all.

use vstd::prelude::*;
use vstd::string::*;
use crate::tools::registry::entries_of;
use crate::types::tool::Tool;
use crate::tools::bash::BashTool;
use crate::tools::file_read::FileReadTool;
use crate::tools::file_write::FileWriteTool;
use crate::tools::file_edit::FileEditTool;
use crate::tools::grep::GrepTool;
use crate::tools::glob::GlobTool;
use crate::tools::task_tool::TaskTool;
use crate::tools::task_create::TaskCreateTool;
use crate::tools::task_get::TaskGetTool;
use crate::tools::task_list::TaskListTool;
use crate::tools::task_output::TaskOutputTool;
use crate::tools::task_stop::TaskStopTool;
use crate::tools::task_update::TaskUpdateTool;
use crate::tools::team_create::TeamCreateTool;
use crate::tools::team_delete::TeamDeleteTool;
use crate::tools::web_fetch::WebFetchTool;
use crate::tools::web_search::WebSearchTool;
use crate::tools::send_message::SendMessageTool;
use crate::tools::discover_skills::DiscoverSkillsTool;
use crate::tools::list_mcp_resources::ListMcpResourcesTool;
use crate::tools::mcp_auth::McpAuthTool;
use crate::tools::read_mcp_resource::ReadMcpResourceTool;
use crate::tools::snip::SnipTool;
use crate::tools::enter_plan_mode::EnterPlanModeTool;
use crate::tools::exit_plan_mode::ExitPlanModeTool;
use crate::tools::tungsten::TungstenTool;
use crate::tools::verify_plan_execution::VerifyPlanExecutionTool;
use crate::tools::schedule_cron::ScheduleCronTool;
use crate::tools::skill::SkillTool;
use crate::tools::sleep::SleepTool;
use crate::tools::synthetic_output::SyntheticOutputTool;
use crate::tools::todo_write::TodoWriteTool;
use crate::tools::tool_search::ToolSearchTool;
use crate::tools::enter_worktree::EnterWorktreeTool;
use crate::tools::exit_worktree::ExitWorktreeTool;
use crate::tools::lsp::LspTool;
use crate::tools::notebook_edit::NotebookEditTool;
use crate::tools::powershell::PowerShellTool;
use crate::tools::remote_trigger::RemoteTriggerTool;
use crate::tools::repl::ReplTool;

verus! {

/// One of the built-in tools.
pub enum BuiltinTool {
    Bash(BashTool),
    FileRead(FileReadTool),
    FileWrite(FileWriteTool),
    FileEdit(FileEditTool),
    Grep(GrepTool),
    Glob(GlobTool),
    Task(TaskTool),
    TaskCreate(TaskCreateTool),
    TaskGet(TaskGetTool),
    TaskList(TaskListTool),
    TaskOutput(TaskOutputTool),
    TaskStop(TaskStopTool),
    TaskUpdate(TaskUpdateTool),
    TeamCreate(TeamCreateTool),
    TeamDelete(TeamDeleteTool),
    WebFetch(WebFetchTool),
    WebSearch(WebSearchTool),
    SendMessage(SendMessageTool),
    DiscoverSkills(DiscoverSkillsTool),
    ListMcpResources(ListMcpResourcesTool),
    McpAuth(McpAuthTool),
    ReadMcpResource(ReadMcpResourceTool),
    Snip(SnipTool),
    EnterPlanMode(EnterPlanModeTool),
    ExitPlanMode(ExitPlanModeTool),
    Tungsten(TungstenTool),
    VerifyPlanExecution(VerifyPlanExecutionTool),
    ScheduleCron(ScheduleCronTool),
    Skill(SkillTool),
    Sleep(SleepTool),
    SyntheticOutput(SyntheticOutputTool),
    TodoWrite(TodoWriteTool),
    ToolSearch(ToolSearchTool),
    EnterWorktree(EnterWorktreeTool),
    ExitWorktree(ExitWorktreeTool),
    Lsp(LspTool),
    NotebookEdit(NotebookEditTool),
    PowerShell(PowerShellTool),
    RemoteTrigger(RemoteTriggerTool),
    Repl(ReplTool),
}

/// Each built-in tool's aliases and name, in the order they are registered.
pub open spec fn builtin_entries() -> Seq<(Seq<Seq<char>>, Seq<char>)> {
    seq![
        (seq!["bash"@, "shell"@, "exec"@], "Bash"@),
        (seq!["read"@, "cat"@], "Read"@),
        (seq!["write"@, "create"@, "new"@], "Write"@),
        (seq!["edit"@, "patch"@, "replace"@], "Edit"@),
        (seq!["grep"@, "search"@, "find"@], "Grep"@),
        (seq!["glob"@, "find"@, "list"@], "Glob"@),
        (seq!["task"@], "Task"@),
        (seq![], "TaskCreate"@),
        (seq![], "TaskGet"@),
        (seq![], "TaskList"@),
        (seq![], "TaskOutput"@),
        (seq!["KillShell"@], "TaskStop"@),
        (seq![], "TaskUpdate"@),
        (seq![], "TeamCreate"@),
        (seq![], "TeamDelete"@),
        (seq!["fetch"@, "http"@, "url"@], "WebFetch"@),
        (seq!["search"@, "google"@, "bing"@], "WebSearch"@),
        (seq![], "SendMessage"@),
        (seq![], "DiscoverSkills"@),
        (seq![], "ListMcpResources"@),
        (seq![], "McpAuth"@),
        (seq![], "ReadMcpResource"@),
        (seq![], "Snip"@),
        (seq![], "EnterPlanMode"@),
        (seq![], "ExitPlanMode"@),
        (seq![], "Tungsten"@),
        (seq![], "VerifyPlanExecution"@),
        (seq!["CronDelete"@, "CronList"@], "CronCreate"@),
        (seq![], "Skill"@),
        (seq![], "Sleep"@),
        (seq![], "SyntheticOutput"@),
        (seq![], "TodoWrite"@),
        (seq![], "ToolSearch"@),
        (seq![], "EnterWorktree"@),
        (seq![], "ExitWorktree"@),
        (seq![], "LSP"@),
        (seq![], "NotebookEdit"@),
        (seq![], "PowerShell"@),
        (seq![], "RemoteTrigger"@),
        (seq![], "REPL"@)
    ]
}

/// The names of the built-in tools, in the order they are registered.
pub open spec fn builtin_names() -> Seq<Seq<char>> {
    builtin_entries().map_values(|e: (Seq<Seq<char>>, Seq<char>)| e.1)
}

/// A few features of a name that tell the built-in tools' names apart.
pub open spec fn name_print(n: Seq<char>) -> (int, char, char, char, char, char) {
    (n.len() as int, n[0], n[1], n[4], n[5], n.last())
}

/// No two built-in tools share a name.
pub proof fn lemma_builtin_names_distinct()
    ensures
        builtin_names().no_duplicates(),
{
    reveal_strlit("Bash");
    reveal_strlit("Read");
    reveal_strlit("Write");
    reveal_strlit("Edit");
    reveal_strlit("Grep");
    reveal_strlit("Glob");
    reveal_strlit("Task");
    reveal_strlit("TaskCreate");
    reveal_strlit("TaskGet");
    reveal_strlit("TaskList");
    reveal_strlit("TaskOutput");
    reveal_strlit("TaskStop");
    reveal_strlit("TaskUpdate");
    reveal_strlit("TeamCreate");
    reveal_strlit("TeamDelete");
    reveal_strlit("WebFetch");
    reveal_strlit("WebSearch");
    reveal_strlit("SendMessage");
    reveal_strlit("DiscoverSkills");
    reveal_strlit("ListMcpResources");
    reveal_strlit("McpAuth");
    reveal_strlit("ReadMcpResource");
    reveal_strlit("Snip");
    reveal_strlit("EnterPlanMode");
    reveal_strlit("ExitPlanMode");
    reveal_strlit("Tungsten");
    reveal_strlit("VerifyPlanExecution");
    reveal_strlit("CronCreate");
    reveal_strlit("Skill");
    reveal_strlit("Sleep");
    reveal_strlit("SyntheticOutput");
    reveal_strlit("TodoWrite");
    reveal_strlit("ToolSearch");
    reveal_strlit("EnterWorktree");
    reveal_strlit("ExitWorktree");
    reveal_strlit("LSP");
    reveal_strlit("NotebookEdit");
    reveal_strlit("PowerShell");
    reveal_strlit("RemoteTrigger");
    reveal_strlit("REPL");
    let s = builtin_names();
    let fp = s.map_values(|n: Seq<char>| name_print(n));
    assert(s.len() == 40);
    assert(fp.no_duplicates());
    assert forall|i: int, j: int| 0 <= i < s.len() && 0 <= j < s.len() && i != j implies s[i] != s[j] by {
        assert(fp[i] != fp[j]);
    }
}

/// The built-in tools, in the order they are registered; the task tool
/// keeps its tasks under `tasks_dir`, and the remote-trigger tool works
/// with accounts of `account_site`.
pub fn builtin_tools(tasks_dir: std::path::PathBuf, account_site: String) -> (r: Vec<BuiltinTool>)
    ensures
        entries_of(r@) == builtin_entries(),
{
    let r = vec![
        BuiltinTool::Bash(BashTool::new()),
        BuiltinTool::FileRead(FileReadTool::new()),
        BuiltinTool::FileWrite(FileWriteTool::new()),
        BuiltinTool::FileEdit(FileEditTool::new()),
        BuiltinTool::Grep(GrepTool::new()),
        BuiltinTool::Glob(GlobTool::new()),
        BuiltinTool::Task(TaskTool::new(tasks_dir)),
        BuiltinTool::TaskCreate(TaskCreateTool::new()),
        BuiltinTool::TaskGet(TaskGetTool::new()),
        BuiltinTool::TaskList(TaskListTool::new()),
        BuiltinTool::TaskOutput(TaskOutputTool::new()),
        BuiltinTool::TaskStop(TaskStopTool::new()),
        BuiltinTool::TaskUpdate(TaskUpdateTool::new()),
        BuiltinTool::TeamCreate(TeamCreateTool::new()),
        BuiltinTool::TeamDelete(TeamDeleteTool::new()),
        BuiltinTool::WebFetch(WebFetchTool::new()),
        BuiltinTool::WebSearch(WebSearchTool::new()),
        BuiltinTool::SendMessage(SendMessageTool::new()),
        BuiltinTool::DiscoverSkills(DiscoverSkillsTool::new()),
        BuiltinTool::ListMcpResources(ListMcpResourcesTool::new()),
        BuiltinTool::McpAuth(McpAuthTool::new()),
        BuiltinTool::ReadMcpResource(ReadMcpResourceTool::new()),
        BuiltinTool::Snip(SnipTool::new()),
        BuiltinTool::EnterPlanMode(EnterPlanModeTool::new()),
        BuiltinTool::ExitPlanMode(ExitPlanModeTool::new()),
        BuiltinTool::Tungsten(TungstenTool::new()),
        BuiltinTool::VerifyPlanExecution(VerifyPlanExecutionTool::new()),
        BuiltinTool::ScheduleCron(ScheduleCronTool::new()),
        BuiltinTool::Skill(SkillTool::new()),
        BuiltinTool::Sleep(SleepTool::new()),
        BuiltinTool::SyntheticOutput(SyntheticOutputTool::new()),
        BuiltinTool::TodoWrite(TodoWriteTool::new()),
        BuiltinTool::ToolSearch(ToolSearchTool::new()),
        BuiltinTool::EnterWorktree(EnterWorktreeTool::new()),
        BuiltinTool::ExitWorktree(ExitWorktreeTool::new()),
        BuiltinTool::Lsp(LspTool::new()),
        BuiltinTool::NotebookEdit(NotebookEditTool::new()),
        BuiltinTool::PowerShell(PowerShellTool::new()),
        BuiltinTool::RemoteTrigger(RemoteTriggerTool::new(account_site)),
        BuiltinTool::Repl(ReplTool::new())
    ];
    assert(entries_of(r@) =~= builtin_entries());
    r
}

impl Tool for BuiltinTool {
    open spec fn spec_name(&self) -> Seq<char> {
        match self {
            BuiltinTool::Bash(t) => t.spec_name(),
            BuiltinTool::FileRead(t) => t.spec_name(),
            BuiltinTool::FileWrite(t) => t.spec_name(),
            BuiltinTool::FileEdit(t) => t.spec_name(),
            BuiltinTool::Grep(t) => t.spec_name(),
            BuiltinTool::Glob(t) => t.spec_name(),
            BuiltinTool::Task(t) => t.spec_name(),
            BuiltinTool::TaskCreate(t) => t.spec_name(),
            BuiltinTool::TaskGet(t) => t.spec_name(),
            BuiltinTool::TaskList(t) => t.spec_name(),
            BuiltinTool::TaskOutput(t) => t.spec_name(),
            BuiltinTool::TaskStop(t) => t.spec_name(),
            BuiltinTool::TaskUpdate(t) => t.spec_name(),
            BuiltinTool::TeamCreate(t) => t.spec_name(),
            BuiltinTool::TeamDelete(t) => t.spec_name(),
            BuiltinTool::WebFetch(t) => t.spec_name(),
            BuiltinTool::WebSearch(t) => t.spec_name(),
            BuiltinTool::SendMessage(t) => t.spec_name(),
            BuiltinTool::DiscoverSkills(t) => t.spec_name(),
            BuiltinTool::ListMcpResources(t) => t.spec_name(),
            BuiltinTool::McpAuth(t) => t.spec_name(),
            BuiltinTool::ReadMcpResource(t) => t.spec_name(),
            BuiltinTool::Snip(t) => t.spec_name(),
            BuiltinTool::EnterPlanMode(t) => t.spec_name(),
            BuiltinTool::ExitPlanMode(t) => t.spec_name(),
            BuiltinTool::Tungsten(t) => t.spec_name(),
            BuiltinTool::VerifyPlanExecution(t) => t.spec_name(),
            BuiltinTool::ScheduleCron(t) => t.spec_name(),
            BuiltinTool::Skill(t) => t.spec_name(),
            BuiltinTool::Sleep(t) => t.spec_name(),
            BuiltinTool::SyntheticOutput(t) => t.spec_name(),
            BuiltinTool::TodoWrite(t) => t.spec_name(),
            BuiltinTool::ToolSearch(t) => t.spec_name(),
            BuiltinTool::EnterWorktree(t) => t.spec_name(),
            BuiltinTool::ExitWorktree(t) => t.spec_name(),
            BuiltinTool::Lsp(t) => t.spec_name(),
            BuiltinTool::NotebookEdit(t) => t.spec_name(),
            BuiltinTool::PowerShell(t) => t.spec_name(),
            BuiltinTool::RemoteTrigger(t) => t.spec_name(),
            BuiltinTool::Repl(t) => t.spec_name(),
        }
    }

    open spec fn spec_aliases(&self) -> Seq<Seq<char>> {
        match self {
            BuiltinTool::Bash(t) => t.spec_aliases(),
            BuiltinTool::FileRead(t) => t.spec_aliases(),
            BuiltinTool::FileWrite(t) => t.spec_aliases(),
            BuiltinTool::FileEdit(t) => t.spec_aliases(),
            BuiltinTool::Grep(t) => t.spec_aliases(),
            BuiltinTool::Glob(t) => t.spec_aliases(),
            BuiltinTool::Task(t) => t.spec_aliases(),
            BuiltinTool::TaskCreate(t) => t.spec_aliases(),
            BuiltinTool::TaskGet(t) => t.spec_aliases(),
            BuiltinTool::TaskList(t) => t.spec_aliases(),
            BuiltinTool::TaskOutput(t) => t.spec_aliases(),
            BuiltinTool::TaskStop(t) => t.spec_aliases(),
            BuiltinTool::TaskUpdate(t) => t.spec_aliases(),
            BuiltinTool::TeamCreate(t) => t.spec_aliases(),
            BuiltinTool::TeamDelete(t) => t.spec_aliases(),
            BuiltinTool::WebFetch(t) => t.spec_aliases(),
            BuiltinTool::WebSearch(t) => t.spec_aliases(),
            BuiltinTool::SendMessage(t) => t.spec_aliases(),
            BuiltinTool::DiscoverSkills(t) => t.spec_aliases(),
            BuiltinTool::ListMcpResources(t) => t.spec_aliases(),
            BuiltinTool::McpAuth(t) => t.spec_aliases(),
            BuiltinTool::ReadMcpResource(t) => t.spec_aliases(),
            BuiltinTool::Snip(t) => t.spec_aliases(),
            BuiltinTool::EnterPlanMode(t) => t.spec_aliases(),
            BuiltinTool::ExitPlanMode(t) => t.spec_aliases(),
            BuiltinTool::Tungsten(t) => t.spec_aliases(),
            BuiltinTool::VerifyPlanExecution(t) => t.spec_aliases(),
            BuiltinTool::ScheduleCron(t) => t.spec_aliases(),
            BuiltinTool::Skill(t) => t.spec_aliases(),
            BuiltinTool::Sleep(t) => t.spec_aliases(),
            BuiltinTool::SyntheticOutput(t) => t.spec_aliases(),
            BuiltinTool::TodoWrite(t) => t.spec_aliases(),
            BuiltinTool::ToolSearch(t) => t.spec_aliases(),
            BuiltinTool::EnterWorktree(t) => t.spec_aliases(),
            BuiltinTool::ExitWorktree(t) => t.spec_aliases(),
            BuiltinTool::Lsp(t) => t.spec_aliases(),
            BuiltinTool::NotebookEdit(t) => t.spec_aliases(),
            BuiltinTool::PowerShell(t) => t.spec_aliases(),
            BuiltinTool::RemoteTrigger(t) => t.spec_aliases(),
            BuiltinTool::Repl(t) => t.spec_aliases(),
        }
    }

    open spec fn spec_description(&self) -> Seq<char> {
        match self {
            BuiltinTool::Bash(t) => t.spec_description(),
            BuiltinTool::FileRead(t) => t.spec_description(),
            BuiltinTool::FileWrite(t) => t.spec_description(),
            BuiltinTool::FileEdit(t) => t.spec_description(),
            BuiltinTool::Grep(t) => t.spec_description(),
            BuiltinTool::Glob(t) => t.spec_description(),
            BuiltinTool::Task(t) => t.spec_description(),
            BuiltinTool::TaskCreate(t) => t.spec_description(),
            BuiltinTool::TaskGet(t) => t.spec_description(),
            BuiltinTool::TaskList(t) => t.spec_description(),
            BuiltinTool::TaskOutput(t) => t.spec_description(),
            BuiltinTool::TaskStop(t) => t.spec_description(),
            BuiltinTool::TaskUpdate(t) => t.spec_description(),
            BuiltinTool::TeamCreate(t) => t.spec_description(),
            BuiltinTool::TeamDelete(t) => t.spec_description(),
            BuiltinTool::WebFetch(t) => t.spec_description(),
            BuiltinTool::WebSearch(t) => t.spec_description(),
            BuiltinTool::SendMessage(t) => t.spec_description(),
            BuiltinTool::DiscoverSkills(t) => t.spec_description(),
            BuiltinTool::ListMcpResources(t) => t.spec_description(),
            BuiltinTool::McpAuth(t) => t.spec_description(),
            BuiltinTool::ReadMcpResource(t) => t.spec_description(),
            BuiltinTool::Snip(t) => t.spec_description(),
            BuiltinTool::EnterPlanMode(t) => t.spec_description(),
            BuiltinTool::ExitPlanMode(t) => t.spec_description(),
            BuiltinTool::Tungsten(t) => t.spec_description(),
            BuiltinTool::VerifyPlanExecution(t) => t.spec_description(),
            BuiltinTool::ScheduleCron(t) => t.spec_description(),
            BuiltinTool::Skill(t) => t.spec_description(),
            BuiltinTool::Sleep(t) => t.spec_description(),
            BuiltinTool::SyntheticOutput(t) => t.spec_description(),
            BuiltinTool::TodoWrite(t) => t.spec_description(),
            BuiltinTool::ToolSearch(t) => t.spec_description(),
            BuiltinTool::EnterWorktree(t) => t.spec_description(),
            BuiltinTool::ExitWorktree(t) => t.spec_description(),
            BuiltinTool::Lsp(t) => t.spec_description(),
            BuiltinTool::NotebookEdit(t) => t.spec_description(),
            BuiltinTool::PowerShell(t) => t.spec_description(),
            BuiltinTool::RemoteTrigger(t) => t.spec_description(),
            BuiltinTool::Repl(t) => t.spec_description(),
        }
    }

    open spec fn spec_concurrency_safe(&self) -> bool {
        match self {
            BuiltinTool::Bash(t) => t.spec_concurrency_safe(),
            BuiltinTool::FileRead(t) => t.spec_concurrency_safe(),
            BuiltinTool::FileWrite(t) => t.spec_concurrency_safe(),
            BuiltinTool::FileEdit(t) => t.spec_concurrency_safe(),
            BuiltinTool::Grep(t) => t.spec_concurrency_safe(),
            BuiltinTool::Glob(t) => t.spec_concurrency_safe(),
            BuiltinTool::Task(t) => t.spec_concurrency_safe(),
            BuiltinTool::TaskCreate(t) => t.spec_concurrency_safe(),
            BuiltinTool::TaskGet(t) => t.spec_concurrency_safe(),
            BuiltinTool::TaskList(t) => t.spec_concurrency_safe(),
            BuiltinTool::TaskOutput(t) => t.spec_concurrency_safe(),
            BuiltinTool::TaskStop(t) => t.spec_concurrency_safe(),
            BuiltinTool::TaskUpdate(t) => t.spec_concurrency_safe(),
            BuiltinTool::TeamCreate(t) => t.spec_concurrency_safe(),
            BuiltinTool::TeamDelete(t) => t.spec_concurrency_safe(),
            BuiltinTool::WebFetch(t) => t.spec_concurrency_safe(),
            BuiltinTool::WebSearch(t) => t.spec_concurrency_safe(),
            BuiltinTool::SendMessage(t) => t.spec_concurrency_safe(),
            BuiltinTool::DiscoverSkills(t) => t.spec_concurrency_safe(),
            BuiltinTool::ListMcpResources(t) => t.spec_concurrency_safe(),
            BuiltinTool::McpAuth(t) => t.spec_concurrency_safe(),
            BuiltinTool::ReadMcpResource(t) => t.spec_concurrency_safe(),
            BuiltinTool::Snip(t) => t.spec_concurrency_safe(),
            BuiltinTool::EnterPlanMode(t) => t.spec_concurrency_safe(),
            BuiltinTool::ExitPlanMode(t) => t.spec_concurrency_safe(),
            BuiltinTool::Tungsten(t) => t.spec_concurrency_safe(),
            BuiltinTool::VerifyPlanExecution(t) => t.spec_concurrency_safe(),
            BuiltinTool::ScheduleCron(t) => t.spec_concurrency_safe(),
            BuiltinTool::Skill(t) => t.spec_concurrency_safe(),
            BuiltinTool::Sleep(t) => t.spec_concurrency_safe(),
            BuiltinTool::SyntheticOutput(t) => t.spec_concurrency_safe(),
            BuiltinTool::TodoWrite(t) => t.spec_concurrency_safe(),
            BuiltinTool::ToolSearch(t) => t.spec_concurrency_safe(),
            BuiltinTool::EnterWorktree(t) => t.spec_concurrency_safe(),
            BuiltinTool::ExitWorktree(t) => t.spec_concurrency_safe(),
            BuiltinTool::Lsp(t) => t.spec_concurrency_safe(),
            BuiltinTool::NotebookEdit(t) => t.spec_concurrency_safe(),
            BuiltinTool::PowerShell(t) => t.spec_concurrency_safe(),
            BuiltinTool::RemoteTrigger(t) => t.spec_concurrency_safe(),
            BuiltinTool::Repl(t) => t.spec_concurrency_safe(),
        }
    }

    open spec fn spec_read_only(&self) -> bool {
        match self {
            BuiltinTool::Bash(t) => t.spec_read_only(),
            BuiltinTool::FileRead(t) => t.spec_read_only(),
            BuiltinTool::FileWrite(t) => t.spec_read_only(),
            BuiltinTool::FileEdit(t) => t.spec_read_only(),
            BuiltinTool::Grep(t) => t.spec_read_only(),
            BuiltinTool::Glob(t) => t.spec_read_only(),
            BuiltinTool::Task(t) => t.spec_read_only(),
            BuiltinTool::TaskCreate(t) => t.spec_read_only(),
            BuiltinTool::TaskGet(t) => t.spec_read_only(),
            BuiltinTool::TaskList(t) => t.spec_read_only(),
            BuiltinTool::TaskOutput(t) => t.spec_read_only(),
            BuiltinTool::TaskStop(t) => t.spec_read_only(),
            BuiltinTool::TaskUpdate(t) => t.spec_read_only(),
            BuiltinTool::TeamCreate(t) => t.spec_read_only(),
            BuiltinTool::TeamDelete(t) => t.spec_read_only(),
            BuiltinTool::WebFetch(t) => t.spec_read_only(),
            BuiltinTool::WebSearch(t) => t.spec_read_only(),
            BuiltinTool::SendMessage(t) => t.spec_read_only(),
            BuiltinTool::DiscoverSkills(t) => t.spec_read_only(),
            BuiltinTool::ListMcpResources(t) => t.spec_read_only(),
            BuiltinTool::McpAuth(t) => t.spec_read_only(),
            BuiltinTool::ReadMcpResource(t) => t.spec_read_only(),
            BuiltinTool::Snip(t) => t.spec_read_only(),
            BuiltinTool::EnterPlanMode(t) => t.spec_read_only(),
            BuiltinTool::ExitPlanMode(t) => t.spec_read_only(),
            BuiltinTool::Tungsten(t) => t.spec_read_only(),
            BuiltinTool::VerifyPlanExecution(t) => t.spec_read_only(),
            BuiltinTool::ScheduleCron(t) => t.spec_read_only(),
            BuiltinTool::Skill(t) => t.spec_read_only(),
            BuiltinTool::Sleep(t) => t.spec_read_only(),
            BuiltinTool::SyntheticOutput(t) => t.spec_read_only(),
            BuiltinTool::TodoWrite(t) => t.spec_read_only(),
            BuiltinTool::ToolSearch(t) => t.spec_read_only(),
            BuiltinTool::EnterWorktree(t) => t.spec_read_only(),
            BuiltinTool::ExitWorktree(t) => t.spec_read_only(),
            BuiltinTool::Lsp(t) => t.spec_read_only(),
            BuiltinTool::NotebookEdit(t) => t.spec_read_only(),
            BuiltinTool::PowerShell(t) => t.spec_read_only(),
            BuiltinTool::RemoteTrigger(t) => t.spec_read_only(),
            BuiltinTool::Repl(t) => t.spec_read_only(),
        }
    }

    open spec fn spec_destructive(&self) -> bool {
        match self {
            BuiltinTool::Bash(t) => t.spec_destructive(),
            BuiltinTool::FileRead(t) => t.spec_destructive(),
            BuiltinTool::FileWrite(t) => t.spec_destructive(),
            BuiltinTool::FileEdit(t) => t.spec_destructive(),
            BuiltinTool::Grep(t) => t.spec_destructive(),
            BuiltinTool::Glob(t) => t.spec_destructive(),
            BuiltinTool::Task(t) => t.spec_destructive(),
            BuiltinTool::TaskCreate(t) => t.spec_destructive(),
            BuiltinTool::TaskGet(t) => t.spec_destructive(),
            BuiltinTool::TaskList(t) => t.spec_destructive(),
            BuiltinTool::TaskOutput(t) => t.spec_destructive(),
            BuiltinTool::TaskStop(t) => t.spec_destructive(),
            BuiltinTool::TaskUpdate(t) => t.spec_destructive(),
            BuiltinTool::TeamCreate(t) => t.spec_destructive(),
            BuiltinTool::TeamDelete(t) => t.spec_destructive(),
            BuiltinTool::WebFetch(t) => t.spec_destructive(),
            BuiltinTool::WebSearch(t) => t.spec_destructive(),
            BuiltinTool::SendMessage(t) => t.spec_destructive(),
            BuiltinTool::DiscoverSkills(t) => t.spec_destructive(),
            BuiltinTool::ListMcpResources(t) => t.spec_destructive(),
            BuiltinTool::McpAuth(t) => t.spec_destructive(),
            BuiltinTool::ReadMcpResource(t) => t.spec_destructive(),
            BuiltinTool::Snip(t) => t.spec_destructive(),
            BuiltinTool::EnterPlanMode(t) => t.spec_destructive(),
            BuiltinTool::ExitPlanMode(t) => t.spec_destructive(),
            BuiltinTool::Tungsten(t) => t.spec_destructive(),
            BuiltinTool::VerifyPlanExecution(t) => t.spec_destructive(),
            BuiltinTool::ScheduleCron(t) => t.spec_destructive(),
            BuiltinTool::Skill(t) => t.spec_destructive(),
            BuiltinTool::Sleep(t) => t.spec_destructive(),
            BuiltinTool::SyntheticOutput(t) => t.spec_destructive(),
            BuiltinTool::TodoWrite(t) => t.spec_destructive(),
            BuiltinTool::ToolSearch(t) => t.spec_destructive(),
            BuiltinTool::EnterWorktree(t) => t.spec_destructive(),
            BuiltinTool::ExitWorktree(t) => t.spec_destructive(),
            BuiltinTool::Lsp(t) => t.spec_destructive(),
            BuiltinTool::NotebookEdit(t) => t.spec_destructive(),
            BuiltinTool::PowerShell(t) => t.spec_destructive(),
            BuiltinTool::RemoteTrigger(t) => t.spec_destructive(),
            BuiltinTool::Repl(t) => t.spec_destructive(),
        }
    }

    open spec fn spec_enabled(&self) -> bool {
        match self {
            BuiltinTool::Bash(t) => t.spec_enabled(),
            BuiltinTool::FileRead(t) => t.spec_enabled(),
            BuiltinTool::FileWrite(t) => t.spec_enabled(),
            BuiltinTool::FileEdit(t) => t.spec_enabled(),
            BuiltinTool::Grep(t) => t.spec_enabled(),
            BuiltinTool::Glob(t) => t.spec_enabled(),
            BuiltinTool::Task(t) => t.spec_enabled(),
            BuiltinTool::TaskCreate(t) => t.spec_enabled(),
            BuiltinTool::TaskGet(t) => t.spec_enabled(),
            BuiltinTool::TaskList(t) => t.spec_enabled(),
            BuiltinTool::TaskOutput(t) => t.spec_enabled(),
            BuiltinTool::TaskStop(t) => t.spec_enabled(),
            BuiltinTool::TaskUpdate(t) => t.spec_enabled(),
            BuiltinTool::TeamCreate(t) => t.spec_enabled(),
            BuiltinTool::TeamDelete(t) => t.spec_enabled(),
            BuiltinTool::WebFetch(t) => t.spec_enabled(),
            BuiltinTool::WebSearch(t) => t.spec_enabled(),
            BuiltinTool::SendMessage(t) => t.spec_enabled(),
            BuiltinTool::DiscoverSkills(t) => t.spec_enabled(),
            BuiltinTool::ListMcpResources(t) => t.spec_enabled(),
            BuiltinTool::McpAuth(t) => t.spec_enabled(),
            BuiltinTool::ReadMcpResource(t) => t.spec_enabled(),
            BuiltinTool::Snip(t) => t.spec_enabled(),
            BuiltinTool::EnterPlanMode(t) => t.spec_enabled(),
            BuiltinTool::ExitPlanMode(t) => t.spec_enabled(),
            BuiltinTool::Tungsten(t) => t.spec_enabled(),
            BuiltinTool::VerifyPlanExecution(t) => t.spec_enabled(),
            BuiltinTool::ScheduleCron(t) => t.spec_enabled(),
            BuiltinTool::Skill(t) => t.spec_enabled(),
            BuiltinTool::Sleep(t) => t.spec_enabled(),
            BuiltinTool::SyntheticOutput(t) => t.spec_enabled(),
            BuiltinTool::TodoWrite(t) => t.spec_enabled(),
            BuiltinTool::ToolSearch(t) => t.spec_enabled(),
            BuiltinTool::EnterWorktree(t) => t.spec_enabled(),
            BuiltinTool::ExitWorktree(t) => t.spec_enabled(),
            BuiltinTool::Lsp(t) => t.spec_enabled(),
            BuiltinTool::NotebookEdit(t) => t.spec_enabled(),
            BuiltinTool::PowerShell(t) => t.spec_enabled(),
            BuiltinTool::RemoteTrigger(t) => t.spec_enabled(),
            BuiltinTool::Repl(t) => t.spec_enabled(),
        }
    }

    fn name(&self) -> (r: &str) {
        match self {
            BuiltinTool::Bash(t) => t.name(),
            BuiltinTool::FileRead(t) => t.name(),
            BuiltinTool::FileWrite(t) => t.name(),
            BuiltinTool::FileEdit(t) => t.name(),
            BuiltinTool::Grep(t) => t.name(),
            BuiltinTool::Glob(t) => t.name(),
            BuiltinTool::Task(t) => t.name(),
            BuiltinTool::TaskCreate(t) => t.name(),
            BuiltinTool::TaskGet(t) => t.name(),
            BuiltinTool::TaskList(t) => t.name(),
            BuiltinTool::TaskOutput(t) => t.name(),
            BuiltinTool::TaskStop(t) => t.name(),
            BuiltinTool::TaskUpdate(t) => t.name(),
            BuiltinTool::TeamCreate(t) => t.name(),
            BuiltinTool::TeamDelete(t) => t.name(),
            BuiltinTool::WebFetch(t) => t.name(),
            BuiltinTool::WebSearch(t) => t.name(),
            BuiltinTool::SendMessage(t) => t.name(),
            BuiltinTool::DiscoverSkills(t) => t.name(),
            BuiltinTool::ListMcpResources(t) => t.name(),
            BuiltinTool::McpAuth(t) => t.name(),
            BuiltinTool::ReadMcpResource(t) => t.name(),
            BuiltinTool::Snip(t) => t.name(),
            BuiltinTool::EnterPlanMode(t) => t.name(),
            BuiltinTool::ExitPlanMode(t) => t.name(),
            BuiltinTool::Tungsten(t) => t.name(),
            BuiltinTool::VerifyPlanExecution(t) => t.name(),
            BuiltinTool::ScheduleCron(t) => t.name(),
            BuiltinTool::Skill(t) => t.name(),
            BuiltinTool::Sleep(t) => t.name(),
            BuiltinTool::SyntheticOutput(t) => t.name(),
            BuiltinTool::TodoWrite(t) => t.name(),
            BuiltinTool::ToolSearch(t) => t.name(),
            BuiltinTool::EnterWorktree(t) => t.name(),
            BuiltinTool::ExitWorktree(t) => t.name(),
            BuiltinTool::Lsp(t) => t.name(),
            BuiltinTool::NotebookEdit(t) => t.name(),
            BuiltinTool::PowerShell(t) => t.name(),
            BuiltinTool::RemoteTrigger(t) => t.name(),
            BuiltinTool::Repl(t) => t.name(),
        }
    }

    fn aliases(&self) -> (r: Vec<String>) {
        match self {
            BuiltinTool::Bash(t) => t.aliases(),
            BuiltinTool::FileRead(t) => t.aliases(),
            BuiltinTool::FileWrite(t) => t.aliases(),
            BuiltinTool::FileEdit(t) => t.aliases(),
            BuiltinTool::Grep(t) => t.aliases(),
            BuiltinTool::Glob(t) => t.aliases(),
            BuiltinTool::Task(t) => t.aliases(),
            BuiltinTool::TaskCreate(t) => t.aliases(),
            BuiltinTool::TaskGet(t) => t.aliases(),
            BuiltinTool::TaskList(t) => t.aliases(),
            BuiltinTool::TaskOutput(t) => t.aliases(),
            BuiltinTool::TaskStop(t) => t.aliases(),
            BuiltinTool::TaskUpdate(t) => t.aliases(),
            BuiltinTool::TeamCreate(t) => t.aliases(),
            BuiltinTool::TeamDelete(t) => t.aliases(),
            BuiltinTool::WebFetch(t) => t.aliases(),
            BuiltinTool::WebSearch(t) => t.aliases(),
            BuiltinTool::SendMessage(t) => t.aliases(),
            BuiltinTool::DiscoverSkills(t) => t.aliases(),
            BuiltinTool::ListMcpResources(t) => t.aliases(),
            BuiltinTool::McpAuth(t) => t.aliases(),
            BuiltinTool::ReadMcpResource(t) => t.aliases(),
            BuiltinTool::Snip(t) => t.aliases(),
            BuiltinTool::EnterPlanMode(t) => t.aliases(),
            BuiltinTool::ExitPlanMode(t) => t.aliases(),
            BuiltinTool::Tungsten(t) => t.aliases(),
            BuiltinTool::VerifyPlanExecution(t) => t.aliases(),
            BuiltinTool::ScheduleCron(t) => t.aliases(),
            BuiltinTool::Skill(t) => t.aliases(),
            BuiltinTool::Sleep(t) => t.aliases(),
            BuiltinTool::SyntheticOutput(t) => t.aliases(),
            BuiltinTool::TodoWrite(t) => t.aliases(),
            BuiltinTool::ToolSearch(t) => t.aliases(),
            BuiltinTool::EnterWorktree(t) => t.aliases(),
            BuiltinTool::ExitWorktree(t) => t.aliases(),
            BuiltinTool::Lsp(t) => t.aliases(),
            BuiltinTool::NotebookEdit(t) => t.aliases(),
            BuiltinTool::PowerShell(t) => t.aliases(),
            BuiltinTool::RemoteTrigger(t) => t.aliases(),
            BuiltinTool::Repl(t) => t.aliases(),
        }
    }

    fn description(&self) -> (r: String) {
        match self {
            BuiltinTool::Bash(t) => t.description(),
            BuiltinTool::FileRead(t) => t.description(),
            BuiltinTool::FileWrite(t) => t.description(),
            BuiltinTool::FileEdit(t) => t.description(),
            BuiltinTool::Grep(t) => t.description(),
            BuiltinTool::Glob(t) => t.description(),
            BuiltinTool::Task(t) => t.description(),
            BuiltinTool::TaskCreate(t) => t.description(),
            BuiltinTool::TaskGet(t) => t.description(),
            BuiltinTool::TaskList(t) => t.description(),
            BuiltinTool::TaskOutput(t) => t.description(),
            BuiltinTool::TaskStop(t) => t.description(),
            BuiltinTool::TaskUpdate(t) => t.description(),
            BuiltinTool::TeamCreate(t) => t.description(),
            BuiltinTool::TeamDelete(t) => t.description(),
            BuiltinTool::WebFetch(t) => t.description(),
            BuiltinTool::WebSearch(t) => t.description(),
            BuiltinTool::SendMessage(t) => t.description(),
            BuiltinTool::DiscoverSkills(t) => t.description(),
            BuiltinTool::ListMcpResources(t) => t.description(),
            BuiltinTool::McpAuth(t) => t.description(),
            BuiltinTool::ReadMcpResource(t) => t.description(),
            BuiltinTool::Snip(t) => t.description(),
            BuiltinTool::EnterPlanMode(t) => t.description(),
            BuiltinTool::ExitPlanMode(t) => t.description(),
            BuiltinTool::Tungsten(t) => t.description(),
            BuiltinTool::VerifyPlanExecution(t) => t.description(),
            BuiltinTool::ScheduleCron(t) => t.description(),
            BuiltinTool::Skill(t) => t.description(),
            BuiltinTool::Sleep(t) => t.description(),
            BuiltinTool::SyntheticOutput(t) => t.description(),
            BuiltinTool::TodoWrite(t) => t.description(),
            BuiltinTool::ToolSearch(t) => t.description(),
            BuiltinTool::EnterWorktree(t) => t.description(),
            BuiltinTool::ExitWorktree(t) => t.description(),
            BuiltinTool::Lsp(t) => t.description(),
            BuiltinTool::NotebookEdit(t) => t.description(),
            BuiltinTool::PowerShell(t) => t.description(),
            BuiltinTool::RemoteTrigger(t) => t.description(),
            BuiltinTool::Repl(t) => t.description(),
        }
    }

    fn is_concurrency_safe(&self) -> (r: bool)
        ensures
            r == self.spec_concurrency_safe(),
    {
        match self {
            BuiltinTool::Bash(t) => t.is_concurrency_safe(),
            BuiltinTool::FileRead(t) => t.is_concurrency_safe(),
            BuiltinTool::FileWrite(t) => t.is_concurrency_safe(),
            BuiltinTool::FileEdit(t) => t.is_concurrency_safe(),
            BuiltinTool::Grep(t) => t.is_concurrency_safe(),
            BuiltinTool::Glob(t) => t.is_concurrency_safe(),
            BuiltinTool::Task(t) => t.is_concurrency_safe(),
            BuiltinTool::TaskCreate(t) => t.is_concurrency_safe(),
            BuiltinTool::TaskGet(t) => t.is_concurrency_safe(),
            BuiltinTool::TaskList(t) => t.is_concurrency_safe(),
            BuiltinTool::TaskOutput(t) => t.is_concurrency_safe(),
            BuiltinTool::TaskStop(t) => t.is_concurrency_safe(),
            BuiltinTool::TaskUpdate(t) => t.is_concurrency_safe(),
            BuiltinTool::TeamCreate(t) => t.is_concurrency_safe(),
            BuiltinTool::TeamDelete(t) => t.is_concurrency_safe(),
            BuiltinTool::WebFetch(t) => t.is_concurrency_safe(),
            BuiltinTool::WebSearch(t) => t.is_concurrency_safe(),
            BuiltinTool::SendMessage(t) => t.is_concurrency_safe(),
            BuiltinTool::DiscoverSkills(t) => t.is_concurrency_safe(),
            BuiltinTool::ListMcpResources(t) => t.is_concurrency_safe(),
            BuiltinTool::McpAuth(t) => t.is_concurrency_safe(),
            BuiltinTool::ReadMcpResource(t) => t.is_concurrency_safe(),
            BuiltinTool::Snip(t) => t.is_concurrency_safe(),
            BuiltinTool::EnterPlanMode(t) => t.is_concurrency_safe(),
            BuiltinTool::ExitPlanMode(t) => t.is_concurrency_safe(),
            BuiltinTool::Tungsten(t) => t.is_concurrency_safe(),
            BuiltinTool::VerifyPlanExecution(t) => t.is_concurrency_safe(),
            BuiltinTool::ScheduleCron(t) => t.is_concurrency_safe(),
            BuiltinTool::Skill(t) => t.is_concurrency_safe(),
            BuiltinTool::Sleep(t) => t.is_concurrency_safe(),
            BuiltinTool::SyntheticOutput(t) => t.is_concurrency_safe(),
            BuiltinTool::TodoWrite(t) => t.is_concurrency_safe(),
            BuiltinTool::ToolSearch(t) => t.is_concurrency_safe(),
            BuiltinTool::EnterWorktree(t) => t.is_concurrency_safe(),
            BuiltinTool::ExitWorktree(t) => t.is_concurrency_safe(),
            BuiltinTool::Lsp(t) => t.is_concurrency_safe(),
            BuiltinTool::NotebookEdit(t) => t.is_concurrency_safe(),
            BuiltinTool::PowerShell(t) => t.is_concurrency_safe(),
            BuiltinTool::RemoteTrigger(t) => t.is_concurrency_safe(),
            BuiltinTool::Repl(t) => t.is_concurrency_safe(),
        }
    }

    fn is_read_only(&self) -> (r: bool)
        ensures
            r == self.spec_read_only(),
    {
        match self {
            BuiltinTool::Bash(t) => t.is_read_only(),
            BuiltinTool::FileRead(t) => t.is_read_only(),
            BuiltinTool::FileWrite(t) => t.is_read_only(),
            BuiltinTool::FileEdit(t) => t.is_read_only(),
            BuiltinTool::Grep(t) => t.is_read_only(),
            BuiltinTool::Glob(t) => t.is_read_only(),
            BuiltinTool::Task(t) => t.is_read_only(),
            BuiltinTool::TaskCreate(t) => t.is_read_only(),
            BuiltinTool::TaskGet(t) => t.is_read_only(),
            BuiltinTool::TaskList(t) => t.is_read_only(),
            BuiltinTool::TaskOutput(t) => t.is_read_only(),
            BuiltinTool::TaskStop(t) => t.is_read_only(),
            BuiltinTool::TaskUpdate(t) => t.is_read_only(),
            BuiltinTool::TeamCreate(t) => t.is_read_only(),
            BuiltinTool::TeamDelete(t) => t.is_read_only(),
            BuiltinTool::WebFetch(t) => t.is_read_only(),
            BuiltinTool::WebSearch(t) => t.is_read_only(),
            BuiltinTool::SendMessage(t) => t.is_read_only(),
            BuiltinTool::DiscoverSkills(t) => t.is_read_only(),
            BuiltinTool::ListMcpResources(t) => t.is_read_only(),
            BuiltinTool::McpAuth(t) => t.is_read_only(),
            BuiltinTool::ReadMcpResource(t) => t.is_read_only(),
            BuiltinTool::Snip(t) => t.is_read_only(),
            BuiltinTool::EnterPlanMode(t) => t.is_read_only(),
            BuiltinTool::ExitPlanMode(t) => t.is_read_only(),
            BuiltinTool::Tungsten(t) => t.is_read_only(),
            BuiltinTool::VerifyPlanExecution(t) => t.is_read_only(),
            BuiltinTool::ScheduleCron(t) => t.is_read_only(),
            BuiltinTool::Skill(t) => t.is_read_only(),
            BuiltinTool::Sleep(t) => t.is_read_only(),
            BuiltinTool::SyntheticOutput(t) => t.is_read_only(),
            BuiltinTool::TodoWrite(t) => t.is_read_only(),
            BuiltinTool::ToolSearch(t) => t.is_read_only(),
            BuiltinTool::EnterWorktree(t) => t.is_read_only(),
            BuiltinTool::ExitWorktree(t) => t.is_read_only(),
            BuiltinTool::Lsp(t) => t.is_read_only(),
            BuiltinTool::NotebookEdit(t) => t.is_read_only(),
            BuiltinTool::PowerShell(t) => t.is_read_only(),
            BuiltinTool::RemoteTrigger(t) => t.is_read_only(),
            BuiltinTool::Repl(t) => t.is_read_only(),
        }
    }

    fn is_destructive(&self) -> (r: bool)
        ensures
            r == self.spec_destructive(),
    {
        match self {
            BuiltinTool::Bash(t) => t.is_destructive(),
            BuiltinTool::FileRead(t) => t.is_destructive(),
            BuiltinTool::FileWrite(t) => t.is_destructive(),
            BuiltinTool::FileEdit(t) => t.is_destructive(),
            BuiltinTool::Grep(t) => t.is_destructive(),
            BuiltinTool::Glob(t) => t.is_destructive(),
            BuiltinTool::Task(t) => t.is_destructive(),
            BuiltinTool::TaskCreate(t) => t.is_destructive(),
            BuiltinTool::TaskGet(t) => t.is_destructive(),
            BuiltinTool::TaskList(t) => t.is_destructive(),
            BuiltinTool::TaskOutput(t) => t.is_destructive(),
            BuiltinTool::TaskStop(t) => t.is_destructive(),
            BuiltinTool::TaskUpdate(t) => t.is_destructive(),
            BuiltinTool::TeamCreate(t) => t.is_destructive(),
            BuiltinTool::TeamDelete(t) => t.is_destructive(),
            BuiltinTool::WebFetch(t) => t.is_destructive(),
            BuiltinTool::WebSearch(t) => t.is_destructive(),
            BuiltinTool::SendMessage(t) => t.is_destructive(),
            BuiltinTool::DiscoverSkills(t) => t.is_destructive(),
            BuiltinTool::ListMcpResources(t) => t.is_destructive(),
            BuiltinTool::McpAuth(t) => t.is_destructive(),
            BuiltinTool::ReadMcpResource(t) => t.is_destructive(),
            BuiltinTool::Snip(t) => t.is_destructive(),
            BuiltinTool::EnterPlanMode(t) => t.is_destructive(),
            BuiltinTool::ExitPlanMode(t) => t.is_destructive(),
            BuiltinTool::Tungsten(t) => t.is_destructive(),
            BuiltinTool::VerifyPlanExecution(t) => t.is_destructive(),
            BuiltinTool::ScheduleCron(t) => t.is_destructive(),
            BuiltinTool::Skill(t) => t.is_destructive(),
            BuiltinTool::Sleep(t) => t.is_destructive(),
            BuiltinTool::SyntheticOutput(t) => t.is_destructive(),
            BuiltinTool::TodoWrite(t) => t.is_destructive(),
            BuiltinTool::ToolSearch(t) => t.is_destructive(),
            BuiltinTool::EnterWorktree(t) => t.is_destructive(),
            BuiltinTool::ExitWorktree(t) => t.is_destructive(),
            BuiltinTool::Lsp(t) => t.is_destructive(),
            BuiltinTool::NotebookEdit(t) => t.is_destructive(),
            BuiltinTool::PowerShell(t) => t.is_destructive(),
            BuiltinTool::RemoteTrigger(t) => t.is_destructive(),
            BuiltinTool::Repl(t) => t.is_destructive(),
        }
    }

    fn is_enabled(&self) -> (r: bool)
        ensures
            r == self.spec_enabled(),
    {
        match self {
            BuiltinTool::Bash(t) => t.is_enabled(),
            BuiltinTool::FileRead(t) => t.is_enabled(),
            BuiltinTool::FileWrite(t) => t.is_enabled(),
            BuiltinTool::FileEdit(t) => t.is_enabled(),
            BuiltinTool::Grep(t) => t.is_enabled(),
            BuiltinTool::Glob(t) => t.is_enabled(),
            BuiltinTool::Task(t) => t.is_enabled(),
            BuiltinTool::TaskCreate(t) => t.is_enabled(),
            BuiltinTool::TaskGet(t) => t.is_enabled(),
            BuiltinTool::TaskList(t) => t.is_enabled(),
            BuiltinTool::TaskOutput(t) => t.is_enabled(),
            BuiltinTool::TaskStop(t) => t.is_enabled(),
            BuiltinTool::TaskUpdate(t) => t.is_enabled(),
            BuiltinTool::TeamCreate(t) => t.is_enabled(),
            BuiltinTool::TeamDelete(t) => t.is_enabled(),
            BuiltinTool::WebFetch(t) => t.is_enabled(),
            BuiltinTool::WebSearch(t) => t.is_enabled(),
            BuiltinTool::SendMessage(t) => t.is_enabled(),
            BuiltinTool::DiscoverSkills(t) => t.is_enabled(),
            BuiltinTool::ListMcpResources(t) => t.is_enabled(),
            BuiltinTool::McpAuth(t) => t.is_enabled(),
            BuiltinTool::ReadMcpResource(t) => t.is_enabled(),
            BuiltinTool::Snip(t) => t.is_enabled(),
            BuiltinTool::EnterPlanMode(t) => t.is_enabled(),
            BuiltinTool::ExitPlanMode(t) => t.is_enabled(),
            BuiltinTool::Tungsten(t) => t.is_enabled(),
            BuiltinTool::VerifyPlanExecution(t) => t.is_enabled(),
            BuiltinTool::ScheduleCron(t) => t.is_enabled(),
            BuiltinTool::Skill(t) => t.is_enabled(),
            BuiltinTool::Sleep(t) => t.is_enabled(),
            BuiltinTool::SyntheticOutput(t) => t.is_enabled(),
            BuiltinTool::TodoWrite(t) => t.is_enabled(),
            BuiltinTool::ToolSearch(t) => t.is_enabled(),
            BuiltinTool::EnterWorktree(t) => t.is_enabled(),
            BuiltinTool::ExitWorktree(t) => t.is_enabled(),
            BuiltinTool::Lsp(t) => t.is_enabled(),
            BuiltinTool::NotebookEdit(t) => t.is_enabled(),
            BuiltinTool::PowerShell(t) => t.is_enabled(),
            BuiltinTool::RemoteTrigger(t) => t.is_enabled(),
            BuiltinTool::Repl(t) => t.is_enabled(),
        }
    }
}

} // verus!
