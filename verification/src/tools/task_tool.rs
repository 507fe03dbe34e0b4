//! Task tool: create, list, update and get sub-tasks kept in a task store.

use vstd::prelude::*;
use vstd::string::*;
use crate::error::{is_other_err, CliError};
use crate::ext::{new_task_id, now_millis};
use crate::text::{join, join_seq, i64_to_decimal, owned, signed_decimal, str_eq, views};
use crate::types::task::{task_type_name, TaskState, TaskStatus, TaskType};
use crate::types::tool::{default_render_result_message, is_text_result, joined_previews,
    cut_with, Tool, ToolResult};
use crate::text::cut_ok;

verus! {

/// The name under which a status is written and read.
pub open spec fn status_name(s: TaskStatus) -> Seq<char> {
    match s {
        TaskStatus::Pending => "pending"@,
        TaskStatus::Running => "running"@,
        TaskStatus::Completed => "completed"@,
        TaskStatus::Failed => "failed"@,
        TaskStatus::Killed => "killed"@,
    }
}

/// The status whose name is `s`, if any.
pub open spec fn status_of(s: Seq<char>) -> Option<TaskStatus> {
    if s == "pending"@ {
        Some(TaskStatus::Pending)
    } else if s == "running"@ {
        Some(TaskStatus::Running)
    } else if s == "completed"@ {
        Some(TaskStatus::Completed)
    } else if s == "failed"@ {
        Some(TaskStatus::Failed)
    } else if s == "killed"@ {
        Some(TaskStatus::Killed)
    } else {
        None
    }
}

/// A status after which a task has ended.
pub open spec fn is_terminal(s: TaskStatus) -> bool {
    s == TaskStatus::Completed || s == TaskStatus::Failed || s == TaskStatus::Killed
}

/// Law: a status's name reads back as that status.
pub proof fn lemma_status_roundtrip(s: TaskStatus)
    ensures
        status_of(status_name(s)) == Some(s),
{
    reveal_strlit("pending");
    reveal_strlit("running");
    reveal_strlit("completed");
    reveal_strlit("failed");
    reveal_strlit("killed");
    assert("pending"@.len() == 7 && "pending"@[0] == 'p');
    assert("running"@.len() == 7 && "running"@[0] == 'r');
    assert("completed"@.len() == 9);
    assert("failed"@.len() == 6 && "failed"@[0] == 'f');
    assert("killed"@.len() == 6 && "killed"@[0] == 'k');
}

/// Input of the Task tool.
#[derive(Debug)]
pub struct TaskInput {
    pub action: String,
    pub id: Option<String>,
    pub description: Option<String>,
    pub status: Option<String>,
}

/// The tasks the Task tool keeps, in creation order.
#[derive(Debug)]
pub struct TaskStore {
    pub tasks: Vec<TaskState>,
}

/// The line that lists a task.
pub open spec fn task_line(t: TaskState) -> Seq<char> {
    "["@ + t.id@ + "] ("@ + status_name(t.status) + ") "@ + t.description@
}

/// `Option<i64>` as `{:?}` writes it.
pub open spec fn debug_opt_i64(o: Option<i64>) -> Seq<char> {
    match o {
        Some(v) => "Some("@ + signed_decimal(v as int) + ")"@,
        None => "None"@,
    }
}

/// The report that describes a task.
pub open spec fn task_report(t: TaskState) -> Seq<char> {
    "id: "@ + t.id@ + "\ntype: "@ + task_type_name(t.task_type) + "\nstatus: "@ + status_name(t.status)
        + "\ndescription: "@ + t.description@ + "\nstart_time: "@ + signed_decimal(t.start_time as int)
        + "\nend_time: "@ + debug_opt_i64(t.end_time)
}

/// Some task has id `id`.
pub open spec fn has_task(tasks: Seq<TaskState>, id: Seq<char>) -> bool {
    exists|i: int| 0 <= i < tasks.len() && tasks[i].id@ == id
}

/// `i` is the first position of a task with id `id`.
pub open spec fn first_task(tasks: Seq<TaskState>, id: Seq<char>, i: int) -> bool {
    &&& 0 <= i < tasks.len()
    &&& tasks[i].id@ == id
    &&& forall|j: int| 0 <= j < i ==> tasks[j].id@ != id
}

/// `b` is `a` with status `s` set, and its end time recorded when `s` ends
/// the task.
pub open spec fn status_set(a: TaskState, b: TaskState, s: TaskStatus) -> bool {
    &&& b.status == s
    &&& b.id == a.id
    &&& b.task_type == a.task_type
    &&& b.description == a.description
    &&& b.tool_use_id == a.tool_use_id
    &&& b.start_time == a.start_time
    &&& b.output_file == a.output_file
    &&& b.notified == a.notified
    &&& if is_terminal(s) {
        b.end_time is Some
    } else {
        b.end_time == a.end_time
    }
}

/// What creating a task does: one pending in-process task with the
/// description and a fresh 36-character id is added at the end, and its id
/// is reported.
pub open spec fn created(old: Seq<TaskState>, new: Seq<TaskState>, description: String, r: ToolResult) -> bool {
    &&& new.len() == old.len() + 1
    &&& new.drop_last() == old
    &&& new.last().description == description
    &&& new.last().status == TaskStatus::Pending
    &&& new.last().task_type == TaskType::InProcessTeammate
    &&& new.last().end_time is None
    &&& new.last().id@.len() == 36
    &&& is_text_result(r, "Created task: "@ + new.last().id@, false)
}

/// The listing of the tasks: one line each, or a note that there are none.
pub open spec fn list_text(tasks: Seq<TaskState>) -> Seq<char> {
    if tasks.len() == 0 {
        "No tasks found."@
    } else {
        join_seq(tasks.map_values(|t: TaskState| task_line(t)), "\n"@)
    }
}

/// What updating a task does: an unknown id or status is refused with the
/// store unchanged; else the first task with the id gets the status (and
/// an end time when the status is terminal) and the change is reported.
pub open spec fn updated(
    old: Seq<TaskState>,
    new: Seq<TaskState>,
    id: Seq<char>,
    status: Seq<char>,
    r: Result<ToolResult, CliError>,
) -> bool {
    if !has_task(old, id) {
        is_other_err(r, "task not found: "@ + id) && new == old
    } else if status_of(status) is None {
        is_other_err(r, "unknown status: "@ + status) && new == old
    } else {
        &&& r is Ok
        &&& is_text_result(r->Ok_0, "Updated task "@ + id + " to status: "@ + status, false)
        &&& exists|i: int| #[trigger] first_task(old, id, i) && {
            &&& new.len() == old.len()
            &&& forall|j: int| 0 <= j < old.len() && j != i ==> new[j] == old[j]
            &&& status_set(old[i], new[i], status_of(status)->0)
        }
    }
}

/// What getting a task gives: the report of the first task with the id, or
/// "task not found: <id>".
pub open spec fn got(tasks: Seq<TaskState>, id: Seq<char>, r: Result<ToolResult, CliError>) -> bool {
    if has_task(tasks, id) {
        r is Ok && exists|i: int| #[trigger] first_task(tasks, id, i) && is_text_result(r->Ok_0, task_report(tasks[i]), false)
    } else {
        is_other_err(r, "task not found: "@ + id)
    }
}

fn opt_i64_debug(o: Option<i64>) -> (r: String)
    ensures
        r@ == debug_opt_i64(o),
{
    match o {
        Some(v) => {
            let mut r = owned("Some(");
            let d = i64_to_decimal(v);
            r.append(d.as_str());
            r.append(")");
            r
        },
        None => owned("None"),
    }
}

impl TaskStore {
    /// A store with no tasks.
    pub fn new() -> (r: Self)
        ensures
            r.tasks@.len() == 0,
    {
        TaskStore { tasks: Vec::new() }
    }

    fn find(&self, id: &str) -> (r: Option<usize>)
        ensures
            match r {
                Some(i) => first_task(self.tasks@, id@, i as int),
                None => !has_task(self.tasks@, id@),
            },
    {
        let mut i: usize = 0;
        while i < self.tasks.len()
            invariant
                i <= self.tasks@.len(),
                forall|j: int| 0 <= j < i ==> self.tasks@[j].id@ != id@,
            decreases self.tasks.len() - i,
        {
            if str_eq(self.tasks[i].id.as_str(), id) {
                return Some(i);
            }
            i = i + 1;
        }
        None
    }

    /// Adds a pending in-process task with a fresh id and reports the id.
    pub fn create(&mut self, description: String) -> (r: ToolResult)
        ensures
            created(old(self).tasks@, final(self).tasks@, description, r),
    {
        let id = new_task_id();
        let mut text = owned("Created task: ");
        text.append(id.as_str());
        let task = TaskState::new(id, TaskType::InProcessTeammate, description);
        self.tasks.push(task);
        assert(self.tasks@.drop_last() =~= old(self).tasks@);
        ToolResult::text(text)
    }

    /// Lists every task, one line each, or says there are none.
    pub fn list(&self) -> (r: ToolResult)
        ensures
            is_text_result(r, list_text(self.tasks@), false),
    {
        if self.tasks.len() == 0 {
            return ToolResult::text(owned("No tasks found."));
        }
        let mut lines: Vec<String> = Vec::new();
        let mut i: usize = 0;
        while i < self.tasks.len()
            invariant
                i <= self.tasks@.len(),
                lines@.len() == i,
                forall|j: int| 0 <= j < i ==> #[trigger] lines@[j]@ == task_line(self.tasks@[j]),
            decreases self.tasks.len() - i,
        {
            let t = &self.tasks[i];
            let mut line = owned("[");
            line.append(t.id.as_str());
            line.append("] (");
            line.append(TaskTool::format_status(t.status));
            line.append(") ");
            line.append(t.description.as_str());
            lines.push(line);
            i = i + 1;
        }
        assert(views(lines@) =~= self.tasks@.map_values(|t: TaskState| task_line(t)));
        ToolResult::text(join(&lines, "\n"))
    }

    /// Sets the status of the first task with id `id`, recording an end
    /// time for a terminal status.
    pub fn update(&mut self, id: &str, status: &str) -> (r: Result<ToolResult, CliError>)
        ensures
            updated(old(self).tasks@, final(self).tasks@, id@, status@, r),
    {
        let i = match self.find(id) {
            Some(i) => i,
            None => {
                let mut m = owned("task not found: ");
                m.append(id);
                return Err(CliError::Other(m));
            },
        };
        let new_status = match TaskTool::parse_status(status) {
            Ok(s) => s,
            Err(e) => {
                return Err(e);
            },
        };
        let mut task = self.tasks.remove(i);
        task.status = new_status;
        if new_status == TaskStatus::Completed || new_status == TaskStatus::Failed || new_status
            == TaskStatus::Killed {
            task.end_time = Some(now_millis());
        }
        self.tasks.insert(i, task);
        assert(first_task(old(self).tasks@, id@, i as int));
        let mut text = owned("Updated task ");
        text.append(id);
        text.append(" to status: ");
        text.append(status);
        Ok(ToolResult::text(text))
    }

    /// Describes the first task with id `id`.
    pub fn get(&self, id: &str) -> (r: Result<ToolResult, CliError>)
        ensures
            got(self.tasks@, id@, r),
    {
        let i = match self.find(id) {
            Some(i) => i,
            None => {
                let mut m = owned("task not found: ");
                m.append(id);
                return Err(CliError::Other(m));
            },
        };
        let t = &self.tasks[i];
        let mut text = owned("id: ");
        text.append(t.id.as_str());
        text.append("\ntype: ");
        let ty = t.task_type.to_string();
        text.append(ty.as_str());
        text.append("\nstatus: ");
        text.append(TaskTool::format_status(t.status));
        text.append("\ndescription: ");
        text.append(t.description.as_str());
        text.append("\nstart_time: ");
        let st = i64_to_decimal(t.start_time);
        text.append(st.as_str());
        text.append("\nend_time: ");
        let et = opt_i64_debug(t.end_time);
        text.append(et.as_str());
        assert(first_task(self.tasks@, id@, i as int));
        Ok(ToolResult::text(text))
    }
}

impl Default for TaskStore {
    fn default() -> (r: Self)
        ensures
            r.tasks@.len() == 0,
    {
        TaskStore::new()
    }
}

/// Law: a task just created is found by its id, when no task had that id
/// before, and getting it reports that task.
pub proof fn lemma_create_then_get(
    old: Seq<TaskState>,
    new: Seq<TaskState>,
    description: String,
    r: ToolResult,
    r2: Result<ToolResult, CliError>,
)
    requires
        created(old, new, description, r),
        !has_task(old, new.last().id@),
        got(new, new.last().id@, r2),
    ensures
        r2 matches Ok(res) && is_text_result(res, task_report(new.last()), false),
        new.last().status == TaskStatus::Pending,
        new.last().description == description,
{
    let id = new.last().id@;
    assert(new[new.len() - 1].id@ == id);
    assert(has_task(new, id));
    let i = choose|i: int| #[trigger] first_task(new, id, i) && is_text_result(r2->Ok_0, task_report(new[i]), false);
    if i < new.len() - 1 {
        assert(new[i] == old[i]);
        assert(has_task(old, id));
    }
}

/// Law: updating a task to "completed", "failed" or "killed" ends it: the
/// task then has that status and an end time; updating it to "pending" or
/// "running" sets that status and keeps the end time it had. Only the
/// task updated changes, and only in its status and end time.
pub proof fn lemma_update_end_time(
    old: Seq<TaskState>,
    new: Seq<TaskState>,
    id: Seq<char>,
    status: Seq<char>,
    r: Result<ToolResult, CliError>,
)
    requires
        has_task(old, id),
        updated(old, new, id, status, r),
        status == "completed"@ || status == "failed"@ || status == "killed"@ || status == "pending"@
            || status == "running"@,
    ensures
        r is Ok,
        exists|i: int| #[trigger] first_task(old, id, i) && {
            &&& new.len() == old.len()
            &&& forall|j: int| 0 <= j < old.len() && j != i ==> new[j] == old[j]
            &&& new[i].id == old[i].id
            &&& new[i].description == old[i].description
            &&& new[i].start_time == old[i].start_time
            &&& status == "completed"@ ==> new[i].status == TaskStatus::Completed
            &&& status == "failed"@ ==> new[i].status == TaskStatus::Failed
            &&& status == "killed"@ ==> new[i].status == TaskStatus::Killed
            &&& status == "pending"@ ==> new[i].status == TaskStatus::Pending
            &&& status == "running"@ ==> new[i].status == TaskStatus::Running
            &&& (status == "completed"@ || status == "failed"@ || status == "killed"@) ==> new[i].end_time is Some
            &&& (status == "pending"@ || status == "running"@) ==> new[i].end_time == old[i].end_time
        },
{
    reveal_strlit("pending");
    reveal_strlit("running");
    reveal_strlit("completed");
    reveal_strlit("failed");
    reveal_strlit("killed");
    assert("pending"@.len() == 7 && "pending"@[0] == 'p');
    assert("running"@.len() == 7 && "running"@[0] == 'r');
    assert("completed"@.len() == 9);
    assert("failed"@.len() == 6 && "failed"@[0] == 'f');
    assert("killed"@.len() == 6 && "killed"@[0] == 'k');
    assert(status_of(status) is Some);
    if status == "completed"@ {
        assert(status_of(status) == Some(TaskStatus::Completed));
    } else if status == "failed"@ {
        assert(status_of(status) == Some(TaskStatus::Failed));
    } else if status == "killed"@ {
        assert(status_of(status) == Some(TaskStatus::Killed));
    } else if status == "pending"@ {
        assert(status_of(status) == Some(TaskStatus::Pending));
    } else {
        assert(status_of(status) == Some(TaskStatus::Running));
    }
}

/// Law: after a task's status is updated with a known status name,
/// getting the task reports the new status.
pub proof fn lemma_update_then_get(
    old: Seq<TaskState>,
    new: Seq<TaskState>,
    id: Seq<char>,
    status: Seq<char>,
    r: Result<ToolResult, CliError>,
    r2: Result<ToolResult, CliError>,
)
    requires
        has_task(old, id),
        status_of(status) is Some,
        updated(old, new, id, status, r),
        got(new, id, r2),
    ensures
        r is Ok,
        r2 is Ok,
        exists|i: int| #[trigger] first_task(new, id, i) && new[i].status == status_of(status)->0
            && is_text_result(r2->Ok_0, task_report(new[i]), false),
{
    let i = choose|i: int| #[trigger] first_task(old, id, i) && {
        &&& new.len() == old.len()
        &&& forall|j: int| 0 <= j < old.len() && j != i ==> new[j] == old[j]
        &&& status_set(old[i], new[i], status_of(status)->0)
    };
    assert(first_task(new, id, i)) by {
        assert forall|j: int| 0 <= j < i implies new[j].id@ != id by {
            assert(new[j] == old[j]);
        }
    }
    assert(has_task(new, id));
    let k = choose|k: int| #[trigger] first_task(new, id, k) && is_text_result(r2->Ok_0, task_report(new[k]), false);
    assert(k == i) by {
        if k < i {
            assert(new[k].id@ == id);
        }
        if i < k {
            assert(new[i].id@ == id);
        }
    }
}

/// Creates, lists, updates and gets sub-tasks.
pub struct TaskTool {
    tasks_dir: std::path::PathBuf,
}

impl TaskTool {
    /// A Task tool whose store lives in `tasks_dir`.
    pub fn new(tasks_dir: std::path::PathBuf) -> (r: Self)
        ensures
            r.spec_tasks_dir() == tasks_dir,
    {
        TaskTool { tasks_dir }
    }

    /// The directory that holds the task store.
    pub closed spec fn spec_tasks_dir(&self) -> std::path::PathBuf {
        self.tasks_dir
    }

    /// The directory that holds the task store.
    pub fn tasks_dir(&self) -> (r: &std::path::PathBuf)
        ensures
            *r == self.spec_tasks_dir(),
    {
        &self.tasks_dir
    }

    /// Reads a status from its name.
    pub fn parse_status(s: &str) -> (r: Result<TaskStatus, CliError>)
        ensures
            match r {
                Ok(st) => status_of(s@) == Some(st),
                Err(_) => status_of(s@) is None && is_other_err(r, "unknown status: "@ + s@),
            },
    {
        if str_eq(s, "pending") {
            Ok(TaskStatus::Pending)
        } else if str_eq(s, "running") {
            Ok(TaskStatus::Running)
        } else if str_eq(s, "completed") {
            Ok(TaskStatus::Completed)
        } else if str_eq(s, "failed") {
            Ok(TaskStatus::Failed)
        } else if str_eq(s, "killed") {
            Ok(TaskStatus::Killed)
        } else {
            let mut m = owned("unknown status: ");
            m.append(s);
            Err(CliError::Other(m))
        }
    }

    /// The name of a status.
    pub fn format_status(status: TaskStatus) -> (r: &'static str)
        ensures
            r@ == status_name(status),
    {
        match status {
            TaskStatus::Pending => "pending",
            TaskStatus::Running => "running",
            TaskStatus::Completed => "completed",
            TaskStatus::Failed => "failed",
            TaskStatus::Killed => "killed",
        }
    }

    /// Runs the tool's action on the store: "create" needs a description,
    /// "update" an id and a status, "get" an id; "list" needs nothing.
    pub fn call(&self, store: &mut TaskStore, input: &TaskInput) -> (r: Result<ToolResult, CliError>)
        ensures
            input.action@ == "create"@ ==> match input.description {
                Some(d) => r matches Ok(res) && created(old(store).tasks@, final(store).tasks@, d, res),
                None => is_other_err(r, "description is required for create"@) && final(store).tasks@ == old(store).tasks@,
            },
            input.action@ == "list"@ ==> (r matches Ok(res) && is_text_result(res, list_text(old(store).tasks@), false)
                && final(store).tasks@ == old(store).tasks@),
            input.action@ == "update"@ ==> match (input.id, input.status) {
                (Some(id), Some(st)) => updated(old(store).tasks@, final(store).tasks@, id@, st@, r),
                (None, _) => is_other_err(r, "id is required for update"@) && final(store).tasks@ == old(store).tasks@,
                (Some(_), None) => is_other_err(r, "status is required for update"@) && final(store).tasks@ == old(store).tasks@,
            },
            input.action@ == "get"@ ==> final(store).tasks@ == old(store).tasks@ && match input.id {
                Some(id) => got(old(store).tasks@, id@, r),
                None => is_other_err(r, "id is required for get"@),
            },
            input.action@ != "create"@ && input.action@ != "list"@ && input.action@ != "update"@
                && input.action@ != "get"@ ==> is_other_err(r, "unknown action: "@ + input.action@ + ". Use create, list, update, or get."@)
                && final(store).tasks@ == old(store).tasks@,
    {
        proof {
            reveal_strlit("create");
            reveal_strlit("list");
            reveal_strlit("update");
            reveal_strlit("get");
            assert("create"@.len() == 6 && "create"@[0] == 'c');
            assert("list"@.len() == 4);
            assert("update"@.len() == 6 && "update"@[0] == 'u');
            assert("get"@.len() == 3);
        }
        let action = input.action.as_str();
        if str_eq(action, "create") {
            match &input.description {
                Some(d) => Ok(store.create(d.clone())),
                None => Err(CliError::Other(owned("description is required for create"))),
            }
        } else if str_eq(action, "list") {
            Ok(store.list())
        } else if str_eq(action, "update") {
            let id = match &input.id {
                Some(id) => id,
                None => {
                    return Err(CliError::Other(owned("id is required for update")));
                },
            };
            let status = match &input.status {
                Some(s) => s,
                None => {
                    return Err(CliError::Other(owned("status is required for update")));
                },
            };
            store.update(id.as_str(), status.as_str())
        } else if str_eq(action, "get") {
            match &input.id {
                Some(id) => store.get(id.as_str()),
                None => Err(CliError::Other(owned("id is required for get"))),
            }
        } else {
            let mut m = owned("unknown action: ");
            m.append(action);
            m.append(". Use create, list, update, or get.");
            Err(CliError::Other(m))
        }
    }

    /// The line shown when the tool is used, given its arguments as JSON
    /// text.
    pub fn render_use_message(&self, args_json: &str) -> (r: String)
        ensures
            r@ == "Using Task tool with args: "@ + args_json@,
    {
        let mut r = owned("Using Task tool with args: ");
        r.append(args_json);
        r
    }

    /// The previews of the result's blocks joined with "; ", cut after 200
    /// bytes.
    pub fn render_result_message(&self, result: &ToolResult) -> (r: String)
        requires
            cut_ok(joined_previews(result.content@), 200),
        ensures
            r@ == cut_with(joined_previews(result.content@), 200, "..."@),
    {
        default_render_result_message(result)
    }
}

impl Tool for TaskTool {
    open spec fn spec_name(&self) -> Seq<char> {
        "Task"@
    }

    open spec fn spec_aliases(&self) -> Seq<Seq<char>> {
        seq!["task"@]
    }

    open spec fn spec_description(&self) -> Seq<char> {
        "Create, list, update, and get sub-tasks."@
    }

    fn name(&self) -> (r: &str) {
        "Task"
    }

    fn aliases(&self) -> (r: Vec<String>) {
        let r: Vec<String> = vec![owned("task")];
        assert(views(r@) =~= seq!["task"@]);
        r
    }

    fn description(&self) -> (r: String) {
        owned("Create, list, update, and get sub-tasks.")
    }
}

} // verus!
