//! Tools that create, update and list workspace tasks, keep the session's
//! todo list, and switch plan mode.

use vstd::prelude::*;
use crate::text::{concat, contains_seq, join_seq, join_strings, lowercase_of, str_contains, to_lowercase};
use crate::tools::tasks::{
    Task, TaskManager, TaskStatus, TaskUpdate, TaskUpdateView, TaskView, created, id_at,
    task_not_found_message, updated,
};

verus! {

/// Schema of the arguments of `TaskCreateTool` (JSON text).
pub const TASK_CREATE_SCHEMA: &'static str = "{\"type\":\"object\",\"properties\":{\"subject\":{\"type\":\"string\",\"description\":\"A brief title for the task\"},\"description\":{\"type\":\"string\",\"description\":\"What needs to be done\"},\"activeForm\":{\"type\":\"string\",\"description\":\"Present continuous form shown in spinner when in_progress (e.g., 'Running tests')\"}},\"required\":[\"subject\",\"description\"]}";

/// Schema of the arguments of `TaskUpdateTool` (JSON text).
pub const TASK_UPDATE_SCHEMA: &'static str = "{\"type\":\"object\",\"properties\":{\"id\":{\"type\":\"string\",\"description\":\"The unique ID of the task to update\"},\"subject\":{\"type\":\"string\",\"description\":\"A new brief title for the task\"},\"description\":{\"type\":\"string\",\"description\":\"A new detailed description of the task\"},\"status\":{\"type\":\"string\",\"enum\":[\"pending\",\"in_progress\",\"completed\"],\"description\":\"The new status of the task\"},\"owner\":{\"type\":\"string\",\"description\":\"The new owner assigned to the task\"},\"blockedBy\":{\"type\":\"array\",\"items\":{\"type\":\"string\"},\"description\":\"Array of task IDs that block the task\"}},\"required\":[\"id\"]}";

/// Schema of the arguments of `TaskListTool` (JSON text).
pub const TASK_LIST_SCHEMA: &'static str = "{\"type\":\"object\",\"properties\":{}}";

/// Schema of the arguments of `TodoWriteTool` (JSON text).
pub const TODO_WRITE_SCHEMA: &'static str = "{\"type\":\"object\",\"properties\":{\"todos\":{\"type\":\"array\",\"description\":\"The updated todo list\",\"items\":{\"type\":\"object\",\"properties\":{\"content\":{\"type\":\"string\",\"description\":\"The imperative form describing what needs to be done (e.g., 'Run tests')\"},\"activeForm\":{\"type\":\"string\",\"description\":\"The present continuous form shown during execution (e.g., 'Running tests')\"},\"status\":{\"type\":\"string\",\"enum\":[\"pending\",\"in_progress\",\"completed\"],\"description\":\"The current status of the task\"}},\"required\":[\"content\",\"activeForm\",\"status\"]}}},\"required\":[\"todos\"]}";

/// Schema of the arguments of `EnterPlanModeTool` (JSON text).
pub const ENTER_PLAN_SCHEMA: &'static str = "{\"type\":\"object\",\"properties\":{}}";

/// Schema of the arguments of `ExitPlanModeTool` (JSON text).
pub const EXIT_PLAN_SCHEMA: &'static str = "{\"type\":\"object\",\"properties\":{\"plan\":{\"type\":\"string\",\"description\":\"A clear, actionable step-by-step plan based on your exploration and analysis\"}},\"required\":[\"plan\"]}";

/// Arguments of the task-creation tool.
pub struct TaskCreateArgs {
    pub subject: String,
    pub description: String,
    pub active_form: Option<String>,
}

/// Creates a task in the workspace task list.
pub struct TaskCreateTool;

impl TaskCreateTool {
    pub fn new() -> Self {
        TaskCreateTool
    }

    pub fn name(&self) -> (r: &'static str)
        ensures
            r@ == "TaskCreate"@,
    {
        "TaskCreate"
    }

    pub fn description(&self) -> (r: &'static str)
        ensures
            r@ == "Create a new task in the workspace task list. Use this to break down complex goals into trackable pieces."@,
    {
        "Create a new task in the workspace task list. Use this to break down complex goals into trackable pieces."
    }

    pub fn input_schema(&self) -> (r: &'static str)
        ensures
            r@ == TASK_CREATE_SCHEMA@,
    {
        TASK_CREATE_SCHEMA
    }

    /// Adds a pending, unowned, unblocked task and reports its number.
    pub fn execute(&self, manager: &mut TaskManager, args: TaskCreateArgs) -> (r: Result<String, String>)
        requires
            old(manager).wf(),
            old(manager)@.len() + 1 < u64::MAX,
        ensures
            final(manager).wf(),
            final(manager)@ == created(
                old(manager)@,
                TaskView {
                    id: Seq::empty(),
                    subject: args.subject@,
                    description: args.description@,
                    active_form: crate::text::opt_view(args.active_form),
                    status: TaskStatus::Pending,
                    owner: None,
                    blocks: Seq::empty(),
                    blocked_by: Seq::empty(),
                },
            ),
            r is Ok,
            r->Ok_0@ == "Task #"@ + id_at(old(manager)@.len() as int) + " created successfully: "@ + args.subject@,
    {
        let subject = args.subject.clone();
        let task = Task {
            id: String::new(),
            subject: args.subject,
            description: args.description,
            active_form: args.active_form,
            status: TaskStatus::Pending,
            owner: None,
            blocks: Vec::new(),
            blocked_by: Vec::new(),
        };
        proof {
            assert(task.blocks.deep_view() =~= Seq::<Seq<char>>::empty());
            assert(task.blocked_by.deep_view() =~= Seq::<Seq<char>>::empty());
        }
        let id = match manager.create_task(task) {
            Ok(id) => id,
            Err(e) => return Err(e),
        };
        let mut r = String::from_str("Task #");
        r.append(id.as_str());
        r.append(" created successfully: ");
        r.append(subject.as_str());
        Ok(r)
    }
}

/// Arguments of the task-update tool.
pub struct TaskUpdateArgs {
    pub id: String,
    pub subject: Option<String>,
    pub description: Option<String>,
    pub status: Option<TaskStatus>,
    pub owner: Option<String>,
    pub blocked_by: Option<Vec<String>>,
}

/// Updates an existing task.
pub struct TaskUpdateTool;

impl TaskUpdateTool {
    pub fn new() -> Self {
        TaskUpdateTool
    }

    pub fn name(&self) -> (r: &'static str)
        ensures
            r@ == "TaskUpdate"@,
    {
        "TaskUpdate"
    }

    pub fn description(&self) -> (r: &'static str)
        ensures
            r@ == "Update an existing task in the task list. Change its status to in_progress or completed, reassign it, or update its subject/description/blockers."@,
    {
        "Update an existing task in the task list. Change its status to in_progress or completed, reassign it, or update its subject/description/blockers."
    }

    pub fn input_schema(&self) -> (r: &'static str)
        ensures
            r@ == TASK_UPDATE_SCHEMA@,
    {
        TASK_UPDATE_SCHEMA
    }

    /// Applies the given changes to the task with the given id.
    pub fn execute(&self, manager: &mut TaskManager, args: TaskUpdateArgs) -> (r: Result<String, String>)
        requires
            old(manager).wf(),
        ensures
            final(manager).wf(),
            ({
                let u = TaskUpdateView {
                    subject: crate::text::opt_view(args.subject),
                    description: crate::text::opt_view(args.description),
                    status: args.status,
                    owner: crate::text::opt_view(args.owner),
                    blocked_by: match args.blocked_by {
                        Some(v) => Some(v.deep_view()),
                        None => None,
                    },
                };
                match updated(old(manager)@, args.id@, u) {
                    Some(m) => r matches Ok(msg) && final(manager)@ == m
                        && msg@ == "Task #"@ + args.id@ + " updated successfully."@,
                    None => r matches Err(e) && e@ == task_not_found_message(args.id@)
                        && final(manager)@ == old(manager)@,
                }
            }),
    {
        let TaskUpdateArgs { id, subject, description, status, owner, blocked_by } = args;
        let update = TaskUpdate { subject, description, status, owner, blocked_by };
        match manager.update_task(id.as_str(), update) {
            Ok(()) => {
                let mut r = String::from_str("Task #");
                r.append(id.as_str());
                r.append(" updated successfully.");
                Ok(r)
            },
            Err(e) => Err(e),
        }
    }
}

/// The word shown for a task status.
pub open spec fn status_word(s: TaskStatus) -> Seq<char> {
    match s {
        TaskStatus::Pending => "pending"@,
        TaskStatus::InProgress => "in_progress"@,
        TaskStatus::Completed => "completed"@,
    }
}

/// The blocker list of a task line, each id prefixed with `#`.
pub open spec fn hash_ids(ids: Seq<Seq<char>>) -> Seq<Seq<char>> {
    ids.map_values(|id: Seq<char>| "#"@ + id)
}

/// One line of the task listing.
pub open spec fn task_line(t: TaskView) -> Seq<char> {
    let owner = match t.owner {
        Some(o) => " ("@ + o + ")"@,
        None => Seq::empty(),
    };
    let blocked = if t.blocked_by.len() > 0 {
        " [blocked by "@ + join_seq(hash_ids(t.blocked_by), ", "@) + "]"@
    } else {
        Seq::empty()
    };
    "#"@ + t.id + " ["@ + status_word(t.status) + "] "@ + t.subject + owner + blocked
}

/// The task listing: one line per task, or a notice when there are none.
pub open spec fn task_listing(tasks: Seq<TaskView>) -> Seq<char> {
    if tasks.len() == 0 {
        "No tasks found"@
    } else {
        join_seq(tasks.map_values(|t: TaskView| task_line(t)), "\n"@)
    }
}

/// The word for a status.
pub fn status_text(s: TaskStatus) -> (r: &'static str)
    ensures
        r@ == status_word(s),
{
    match s {
        TaskStatus::Pending => "pending",
        TaskStatus::InProgress => "in_progress",
        TaskStatus::Completed => "completed",
    }
}

/// One line of the task listing.
pub fn format_task_line(t: &Task) -> (r: String)
    ensures
        r@ == task_line(t@),
{
    let mut r = String::from_str("#");
    r.append(t.id.as_str());
    r.append(" [");
    r.append(status_text(t.status));
    r.append("] ");
    r.append(t.subject.as_str());
    if let Some(o) = &t.owner {
        r.append(" (");
        r.append(o.as_str());
        r.append(")");
    }
    if t.blocked_by.len() > 0 {
        let mut ids: Vec<String> = Vec::new();
        let mut i: usize = 0;
        while i < t.blocked_by.len()
            invariant
                i <= t.blocked_by.len(),
                ids.deep_view() == hash_ids(t.blocked_by.deep_view()).take(i as int),
            decreases t.blocked_by.len() - i,
        {
            let h = concat("#", t.blocked_by[i].as_str());
            let ghost before = ids.deep_view();
            ids.push(h);
            assert(ids.deep_view() =~= before.push(h@));
            assert(ids.deep_view() =~= hash_ids(t.blocked_by.deep_view()).take(i + 1));
            i = i + 1;
        }
        assert(hash_ids(t.blocked_by.deep_view()).take(t.blocked_by.len() as int) =~= hash_ids(t.blocked_by.deep_view()));
        r.append(" [blocked by ");
        r.append(join_strings(&ids, ", ").as_str());
        r.append("]");
    }
    r
}

/// Lists all tasks of the workspace.
pub struct TaskListTool;

impl TaskListTool {
    pub fn new() -> Self {
        TaskListTool
    }

    pub fn name(&self) -> (r: &'static str)
        ensures
            r@ == "TaskList"@,
    {
        "TaskList"
    }

    pub fn description(&self) -> (r: &'static str)
        ensures
            r@ == "List all tasks in the workspace, showing their IDs, status, subjects, and any blockers. Used to get a high-level overview of progress."@,
    {
        "List all tasks in the workspace, showing their IDs, status, subjects, and any blockers. Used to get a high-level overview of progress."
    }

    pub fn input_schema(&self) -> (r: &'static str)
        ensures
            r@ == TASK_LIST_SCHEMA@,
    {
        TASK_LIST_SCHEMA
    }

    /// The listing of all tasks, in order of their numbers.
    pub fn execute(&self, manager: &TaskManager) -> (r: Result<String, String>)
        ensures
            r is Ok,
            r->Ok_0@ == task_listing(manager@),
    {
        let tasks = manager.list_tasks();
        if tasks.len() == 0 {
            return Ok(String::from_str("No tasks found"));
        }
        let mut lines: Vec<String> = Vec::new();
        let mut i: usize = 0;
        let ghost views = tasks@.map_values(|t: Task| t@);
        while i < tasks.len()
            invariant
                i <= tasks.len(),
                views == tasks@.map_values(|t: Task| t@),
                lines.deep_view() == views.map_values(|t: TaskView| task_line(t)).take(i as int),
            decreases tasks.len() - i,
        {
            let line = format_task_line(&tasks[i]);
            let ghost before = lines.deep_view();
            lines.push(line);
            assert(lines.deep_view() =~= before.push(line@));
            assert(lines.deep_view() =~= views.map_values(|t: TaskView| task_line(t)).take(i + 1));
            i = i + 1;
        }
        assert(views.map_values(|t: TaskView| task_line(t)).take(tasks.len() as int)
            =~= views.map_values(|t: TaskView| task_line(t)));
        Ok(join_strings(&lines, "\n"))
    }
}


/// Progress of a todo item.
#[derive(Clone, Copy, Debug, PartialEq, Eq, Structural)]
pub enum TodoStatus {
    Pending,
    InProgress,
    Completed,
}

/// One entry of the session's todo list.
pub struct TodoItem {
    pub content: String,
    pub active_form: String,
    pub status: TodoStatus,
}

/// Mathematical value of a todo item.
pub struct TodoItemView {
    pub content: Seq<char>,
    pub active_form: Seq<char>,
    pub status: TodoStatus,
}

impl View for TodoItem {
    type V = TodoItemView;

    open spec fn view(&self) -> TodoItemView {
        TodoItemView { content: self.content@, active_form: self.active_form@, status: self.status }
    }
}

/// Arguments of the todo tool: the whole new list.
pub struct TodoWriteArgs {
    pub todos: Vec<TodoItem>,
}

/// Views of a list of todo items.
pub open spec fn todo_views(v: Seq<TodoItem>) -> Seq<TodoItemView> {
    v.map_values(|t: TodoItem| t@)
}

/// Every item of the list is completed.
pub open spec fn all_completed(todos: Seq<TodoItemView>) -> bool {
    forall|i: int| 0 <= i < todos.len() ==> #[trigger] todos[i].status == TodoStatus::Completed
}

/// Some item's content, lowercased, mentions verification.
pub open spec fn mentions_verification(todos: Seq<TodoItemView>) -> bool {
    exists|i: int| 0 <= i < todos.len() && contains_seq(lowercase_of(#[trigger] todos[i].content), "verif"@)
}

/// The confirmation the todo tool returns.
pub open spec fn todo_reply(nudge: bool) -> Seq<char> {
    let base = "Todos have been modified successfully. Ensure that you continue to use the todo list to track your progress. Please proceed with the current tasks if applicable."@;
    if nudge {
        base + "\n\nNOTE: You just closed out 3+ tasks and none of them was a verification step. Before writing your final summary, you should perform verification testing."@
    } else {
        base
    }
}

/// Keeps the session's todo list.
pub struct TodoWriteTool {
    current_todos: Vec<TodoItem>,
}

impl TodoWriteTool {
    pub fn new() -> (t: Self)
        ensures
            t.todos() == Seq::<TodoItemView>::empty(),
    {
        let t = TodoWriteTool { current_todos: Vec::new() };
        assert(t.todos() =~= Seq::<TodoItemView>::empty());
        t
    }

    /// The todo list currently held.
    pub closed spec fn todos(&self) -> Seq<TodoItemView> {
        todo_views(self.current_todos@)
    }

    pub fn name(&self) -> (r: &'static str)
        ensures
            r@ == "TodoWrite"@,
    {
        "TodoWrite"
    }

    pub fn description(&self) -> (r: &'static str)
        ensures
            r@ == "Update the todo list for the current session. To be used proactively and often to track progress and pending tasks. Make sure that at least one task is in_progress at all times. Always provide both content (imperative) and activeForm (present continuous) for each task."@,
    {
        "Update the todo list for the current session. To be used proactively and often to track progress and pending tasks. Make sure that at least one task is in_progress at all times. Always provide both content (imperative) and activeForm (present continuous) for each task."
    }

    pub fn input_schema(&self) -> (r: &'static str)
        ensures
            r@ == TODO_WRITE_SCHEMA@,
    {
        TODO_WRITE_SCHEMA
    }

    /// Replaces the todo list; a list whose items are all completed empties
    /// it. Closing out three or more items, none of which mentions
    /// verification, adds a reminder to the reply.
    pub fn execute(&mut self, args: TodoWriteArgs) -> (r: Result<String, String>)
        ensures
            r is Ok,
            ({
                let todos = todo_views(args.todos@);
                let done = all_completed(todos);
                &&& final(self).todos() == (if done { Seq::empty() } else { todos })
                &&& r->Ok_0@ == todo_reply(done && todos.len() >= 3 && !mentions_verification(todos))
            }),
    {
        let todos = args.todos;
        let mut mentioned = false;
        let mut i: usize = 0;
        while i < todos.len()
            invariant
                i <= todos.len(),
                mentioned == exists|k: int| 0 <= k < i
                    && contains_seq(lowercase_of(#[trigger] todo_views(todos@)[k].content), "verif"@),
            decreases todos.len() - i,
        {
            let lowered = to_lowercase(todos[i].content.as_str());
            let hit = str_contains(lowered.as_str(), "verif");
            proof {
                assert(todo_views(todos@)[i as int].content == todos@[i as int].content@);
            }
            mentioned = mentioned || hit;
            i = i + 1;
        }
        Ok(self.record(todos, mentioned))
    }

    /// Stores `todos` given whether some item's lowercased content mentions
    /// verification, and returns the reply.
    pub fn record(&mut self, todos: Vec<TodoItem>, mentions: bool) -> (r: String)
        ensures
            ({
                let v = todo_views(todos@);
                let done = all_completed(v);
                &&& final(self).todos() == (if done { Seq::empty() } else { v })
                &&& r@ == todo_reply(done && v.len() >= 3 && !mentions)
            }),
    {
        let mut done = true;
        let mut i: usize = 0;
        while i < todos.len()
            invariant
                i <= todos.len(),
                done == forall|k: int| 0 <= k < i ==> #[trigger] todo_views(todos@)[k].status == TodoStatus::Completed,
            decreases todos.len() - i,
        {
            proof {
                assert(todo_views(todos@)[i as int].status == todos@[i as int].status);
            }
            done = done && todos[i].status == TodoStatus::Completed;
            i = i + 1;
        }
        let nudge = done && todos.len() >= 3 && !mentions;
        if done {
            self.current_todos = Vec::new();
            assert(self.todos() =~= Seq::<TodoItemView>::empty());
        } else {
            self.current_todos = todos;
        }
        let mut r = String::from_str(
            "Todos have been modified successfully. Ensure that you continue to use the todo list to track your progress. Please proceed with the current tasks if applicable.",
        );
        if nudge {
            r.append(
                "\n\nNOTE: You just closed out 3+ tasks and none of them was a verification step. Before writing your final summary, you should perform verification testing.",
            );
        }
        r
    }
}

/// Switches into read-only plan mode.
pub struct EnterPlanModeTool;

impl EnterPlanModeTool {
    pub fn new() -> Self {
        EnterPlanModeTool
    }

    pub fn name(&self) -> (r: &'static str)
        ensures
            r@ == "EnterPlanMode"@,
    {
        "EnterPlanMode"
    }

    pub fn description(&self) -> (r: &'static str)
        ensures
            r@ == "Switch into plan mode to architect a solution or write a detailed plan before making any code changes. Use this when the task requires significant design, exploration, or multi-step execution. In plan mode, you are restricted to read-only operations (no file modifications)."@,
    {
        "Switch into plan mode to architect a solution or write a detailed plan before making any code changes. Use this when the task requires significant design, exploration, or multi-step execution. In plan mode, you are restricted to read-only operations (no file modifications)."
    }

    pub fn input_schema(&self) -> (r: &'static str)
        ensures
            r@ == ENTER_PLAN_SCHEMA@,
    {
        ENTER_PLAN_SCHEMA
    }

    /// The confirmation that plan mode is on.
    pub fn execute(&self) -> (r: Result<String, String>)
        ensures
            r is Ok,
            r->Ok_0@ == "Successfully entered plan mode. You are now restricted to read-only exploration tools. Gather information, analyze the codebase, and formulate a step-by-step plan. Once you are ready, use the ExitPlanMode tool to submit your plan and begin execution."@,
    {
        Ok(String::from_str(
            "Successfully entered plan mode. You are now restricted to read-only exploration tools. Gather information, analyze the codebase, and formulate a step-by-step plan. Once you are ready, use the ExitPlanMode tool to submit your plan and begin execution.",
        ))
    }
}

/// Arguments of the plan-mode exit tool.
pub struct ExitPlanModeArgs {
    pub plan: String,
}

/// Submits the plan and leaves plan mode.
pub struct ExitPlanModeTool;

impl ExitPlanModeTool {
    pub fn new() -> Self {
        ExitPlanModeTool
    }

    pub fn name(&self) -> (r: &'static str)
        ensures
            r@ == "ExitPlanMode"@,
    {
        "ExitPlanMode"
    }

    pub fn description(&self) -> (r: &'static str)
        ensures
            r@ == "Submit a detailed plan and exit plan mode to start executing the changes. Your plan should clearly outline the steps, files to modify, and tests to run."@,
    {
        "Submit a detailed plan and exit plan mode to start executing the changes. Your plan should clearly outline the steps, files to modify, and tests to run."
    }

    pub fn input_schema(&self) -> (r: &'static str)
        ensures
            r@ == EXIT_PLAN_SCHEMA@,
    {
        EXIT_PLAN_SCHEMA
    }

    /// The confirmation once the plan is stored at `plan_path`.
    pub fn saved_message(&self, plan_path: &str) -> (r: String)
        ensures
            r@ == "Successfully exited plan mode and saved the plan to "@ + plan_path@
                + ". You are now back in standard execution mode and can use file modification tools to implement the steps."@,
    {
        let mut r = String::from_str("Successfully exited plan mode and saved the plan to ");
        r.append(plan_path);
        r.append(". You are now back in standard execution mode and can use file modification tools to implement the steps.");
        r
    }
}

} // verus!
