//! Built-in tools: what each tool is, and the decisions its calls make.
pub mod agent_tool;
pub mod bash;
pub mod builtin;
pub mod discover_skills;
pub mod enter_plan_mode;
pub mod enter_worktree;
pub mod exit_plan_mode;
pub mod exit_worktree;
pub mod file_edit;
pub mod file_read;
pub mod file_write;
pub mod glob;
pub mod grep;
pub mod list_mcp_resources;
pub mod lsp;
pub mod mcp_auth;
pub mod notebook_edit;
pub mod powershell;
pub mod read_mcp_resource;
pub mod registry;
pub mod remote_trigger;
pub mod repl;
pub mod schedule_cron;
pub mod send_message;
pub mod skill;
pub mod sleep;
pub mod snip;
pub mod synthetic_output;
pub mod task_create;
pub mod task_get;
pub mod task_list;
pub mod task_output;
pub mod task_stop;
pub mod task_tool;
pub mod task_update;
pub mod team_create;
pub mod team_delete;
pub mod todo_write;
pub mod tool_search;
pub mod tungsten;
pub mod verify_plan_execution;
pub mod web_fetch;
pub mod web_search;
