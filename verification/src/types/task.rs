//! Background task types.

use vstd::prelude::*;
use crate::ext::{empty_path, now_millis};
use crate::text::owned;

verus! {

/// Task type enumeration.
#[derive(Debug, Clone, Copy, PartialEq, Eq, Structural)]
pub enum TaskType {
    LocalBash,
    LocalAgent,
    RemoteAgent,
    InProcessTeammate,
    LocalWorkflow,
    MonitorMcp,
    Dream,
}

/// The display name of a task type.
pub open spec fn task_type_name(t: TaskType) -> Seq<char> {
    match t {
        TaskType::LocalBash => "local_bash"@,
        TaskType::LocalAgent => "local_agent"@,
        TaskType::RemoteAgent => "remote_agent"@,
        TaskType::InProcessTeammate => "in_process_teammate"@,
        TaskType::LocalWorkflow => "local_workflow"@,
        TaskType::MonitorMcp => "monitor_mcp"@,
        TaskType::Dream => "dream"@,
    }
}

impl TaskType {
    /// The type's display name.
    pub fn to_string(&self) -> (r: String)
        ensures
            r@ == task_type_name(*self),
    {
        match self {
            TaskType::LocalBash => owned("local_bash"),
            TaskType::LocalAgent => owned("local_agent"),
            TaskType::RemoteAgent => owned("remote_agent"),
            TaskType::InProcessTeammate => owned("in_process_teammate"),
            TaskType::LocalWorkflow => owned("local_workflow"),
            TaskType::MonitorMcp => owned("monitor_mcp"),
            TaskType::Dream => owned("dream"),
        }
    }
}

/// Task status.
#[derive(Debug, Clone, Copy, PartialEq, Eq, Structural)]
pub enum TaskStatus {
    Pending,
    Running,
    Completed,
    Failed,
    Killed,
}

/// Full task state.
#[derive(Debug)]
pub struct TaskState {
    pub id: String,
    pub task_type: TaskType,
    pub status: TaskStatus,
    pub description: String,
    pub tool_use_id: Option<String>,
    pub start_time: i64,
    pub end_time: Option<i64>,
    pub output_file: std::path::PathBuf,
    pub notified: bool,
}

impl TaskState {
    /// A pending task started now, with no end time, no tool use and an
    /// empty output path.
    pub fn new(id: String, task_type: TaskType, description: String) -> (r: Self)
        ensures
            r.id == id,
            r.task_type == task_type,
            r.status == TaskStatus::Pending,
            r.description == description,
            r.tool_use_id is None,
            r.end_time is None,
            !r.notified,
    {
        TaskState {
            id,
            task_type,
            status: TaskStatus::Pending,
            description,
            tool_use_id: None,
            start_time: now_millis(),
            end_time: None,
            output_file: empty_path(),
            notified: false,
        }
    }

    /// Marks the task running and restarts its clock.
    pub fn start(&mut self)
        ensures
            final(self).status == TaskStatus::Running,
            final(self).id == old(self).id,
            final(self).task_type == old(self).task_type,
            final(self).description == old(self).description,
            final(self).tool_use_id == old(self).tool_use_id,
            final(self).end_time == old(self).end_time,
            final(self).output_file == old(self).output_file,
            final(self).notified == old(self).notified,
    {
        self.status = TaskStatus::Running;
        self.start_time = now_millis();
    }

    /// Ends the task with the given terminal status at the current time.
    fn finish(&mut self, status: TaskStatus)
        ensures
            final(self).status == status,
            final(self).end_time is Some,
            final(self).id == old(self).id,
            final(self).task_type == old(self).task_type,
            final(self).description == old(self).description,
            final(self).tool_use_id == old(self).tool_use_id,
            final(self).start_time == old(self).start_time,
            final(self).output_file == old(self).output_file,
            final(self).notified == old(self).notified,
    {
        self.status = status;
        self.end_time = Some(now_millis());
    }

    /// Marks the task completed, recording its end time.
    pub fn complete(&mut self)
        ensures
            final(self).status == TaskStatus::Completed,
            final(self).end_time is Some,
            final(self).id == old(self).id,
            final(self).task_type == old(self).task_type,
            final(self).description == old(self).description,
            final(self).tool_use_id == old(self).tool_use_id,
            final(self).start_time == old(self).start_time,
            final(self).output_file == old(self).output_file,
            final(self).notified == old(self).notified,
    {
        self.finish(TaskStatus::Completed);
    }

    /// Marks the task failed, recording its end time.
    pub fn fail(&mut self)
        ensures
            final(self).status == TaskStatus::Failed,
            final(self).end_time is Some,
            final(self).id == old(self).id,
            final(self).task_type == old(self).task_type,
            final(self).description == old(self).description,
            final(self).tool_use_id == old(self).tool_use_id,
            final(self).start_time == old(self).start_time,
            final(self).output_file == old(self).output_file,
            final(self).notified == old(self).notified,
    {
        self.finish(TaskStatus::Failed);
    }

    /// Marks the task killed, recording its end time.
    pub fn kill(&mut self)
        ensures
            final(self).status == TaskStatus::Killed,
            final(self).end_time is Some,
            final(self).id == old(self).id,
            final(self).task_type == old(self).task_type,
            final(self).description == old(self).description,
            final(self).tool_use_id == old(self).tool_use_id,
            final(self).start_time == old(self).start_time,
            final(self).output_file == old(self).output_file,
            final(self).notified == old(self).notified,
    {
        self.finish(TaskStatus::Killed);
    }
}

} // verus!
