use claude_code_rs::tools::task_tools::{
    EnterPlanModeTool, ExitPlanModeTool, TaskCreateArgs, TaskCreateTool, TaskListTool, TaskUpdateArgs,
    TaskUpdateTool, TodoItem, TodoStatus, TodoWriteArgs, TodoWriteTool,
};
use claude_code_rs::tools::tasks::{Task, TaskManager, TaskStatus, TaskUpdate};

fn task(subject: &str) -> Task {
    Task {
        id: String::new(),
        subject: subject.to_string(),
        description: format!("about {}", subject),
        active_form: None,
        status: TaskStatus::Pending,
        owner: None,
        blocks: vec![],
        blocked_by: vec![],
    }
}

fn no_update() -> TaskUpdate {
    TaskUpdate { subject: None, description: None, status: None, owner: None, blocked_by: None }
}

#[test]
fn tasks_are_numbered_from_one() {
    let mut m = TaskManager::new(".assistant/tasks".to_string());
    assert_eq!(m.create_task(task("a")), Ok("1".to_string()));
    assert_eq!(m.create_task(task("b")), Ok("2".to_string()));
    assert_eq!(m.len(), 2);
}

#[test]
fn get_after_create_returns_the_task_with_its_id() {
    let mut m = TaskManager::new(".assistant/tasks".to_string());
    let id = m.create_task(task("write docs")).unwrap();
    let t = m.get_task(&id).unwrap();
    assert_eq!(t.id, "1");
    assert_eq!(t.subject, "write docs");
    assert!(m.get_task("2").is_none());
}

#[test]
fn update_changes_only_given_fields() {
    let mut m = TaskManager::new("d".to_string());
    m.create_task(task("a")).unwrap();
    m.create_task(task("b")).unwrap();
    let u = TaskUpdate {
        status: Some(TaskStatus::Completed),
        owner: Some("bob".to_string()),
        blocked_by: Some(vec!["1".to_string()]),
        ..no_update()
    };
    assert_eq!(m.update_task("2", u), Ok(()));
    let t = m.get_task("2").unwrap();
    assert_eq!(t.status, TaskStatus::Completed);
    assert_eq!(t.owner, Some("bob".to_string()));
    assert_eq!(t.subject, "b");
    assert_eq!(t.blocked_by, vec!["1".to_string()]);
    let other = m.get_task("1").unwrap();
    assert_eq!(other.status, TaskStatus::Pending);
}

#[test]
fn update_of_unknown_task_is_refused() {
    let mut m = TaskManager::new("d".to_string());
    m.create_task(task("a")).unwrap();
    assert_eq!(m.update_task("9", no_update()), Err("Task not found: 9".to_string()));
    assert_eq!(m.get_task("1").unwrap().subject, "a");
}

#[test]
fn list_is_in_number_order() {
    let mut m = TaskManager::new("d".to_string());
    for s in ["a", "b", "c"] {
        m.create_task(task(s)).unwrap();
    }
    let ids: Vec<String> = m.list_tasks().into_iter().map(|t| t.id).collect();
    assert_eq!(ids, vec!["1", "2", "3"]);
}

#[test]
fn create_tool_reports_the_number() {
    let mut m = TaskManager::new("d".to_string());
    let tool = TaskCreateTool::new();
    let args = TaskCreateArgs {
        subject: "Write docs".to_string(),
        description: "All of them".to_string(),
        active_form: Some("Writing docs".to_string()),
    };
    assert_eq!(tool.execute(&mut m, args), Ok("Task #1 created successfully: Write docs".to_string()));
    assert_eq!(m.get_task("1").unwrap().active_form, Some("Writing docs".to_string()));
    assert_eq!(tool.name(), "TaskCreate");
}

#[test]
fn list_tool_formats_every_task() {
    let mut m = TaskManager::new("d".to_string());
    let list = TaskListTool::new();
    assert_eq!(list.execute(&m), Ok("No tasks found".to_string()));
    m.create_task(task("Write docs")).unwrap();
    m.create_task(task("Fix bug")).unwrap();
    let u = TaskUpdate {
        status: Some(TaskStatus::InProgress),
        owner: Some("bob".to_string()),
        blocked_by: Some(vec!["1".to_string(), "3".to_string()]),
        ..no_update()
    };
    m.update_task("2", u).unwrap();
    assert_eq!(
        list.execute(&m),
        Ok("#1 [pending] Write docs\n#2 [in_progress] Fix bug (bob) [blocked by #1, #3]".to_string())
    );
}

#[test]
fn update_tool_replies() {
    let mut m = TaskManager::new("d".to_string());
    m.create_task(task("a")).unwrap();
    let tool = TaskUpdateTool::new();
    let args = TaskUpdateArgs {
        id: "1".to_string(),
        subject: Some("renamed".to_string()),
        description: None,
        status: None,
        owner: None,
        blocked_by: None,
    };
    assert_eq!(tool.execute(&mut m, args), Ok("Task #1 updated successfully.".to_string()));
    assert_eq!(m.get_task("1").unwrap().subject, "renamed");
    let missing = TaskUpdateArgs {
        id: "7".to_string(),
        subject: None,
        description: None,
        status: None,
        owner: None,
        blocked_by: None,
    };
    assert_eq!(tool.execute(&mut m, missing), Err("Task not found: 7".to_string()));
}

fn todo(content: &str, status: TodoStatus) -> TodoItem {
    TodoItem { content: content.to_string(), active_form: format!("{}ing", content), status }
}

const TODO_OK: &str = "Todos have been modified successfully. Ensure that you continue to use the todo list to track your progress. Please proceed with the current tasks if applicable.";
const TODO_NUDGE: &str = "\n\nNOTE: You just closed out 3+ tasks and none of them was a verification step. Before writing your final summary, you should perform verification testing.";

#[test]
fn todo_closing_three_without_verification_nudges() {
    let mut t = TodoWriteTool::new();
    let todos = vec![
        todo("a", TodoStatus::Completed),
        todo("b", TodoStatus::Completed),
        todo("c", TodoStatus::Completed),
    ];
    assert_eq!(t.execute(TodoWriteArgs { todos }), Ok(format!("{}{}", TODO_OK, TODO_NUDGE)));
}

#[test]
fn todo_with_verification_step_does_not_nudge() {
    let mut t = TodoWriteTool::new();
    let todos = vec![
        todo("a", TodoStatus::Completed),
        todo("Run VERIFICATION suite", TodoStatus::Completed),
        todo("c", TodoStatus::Completed),
    ];
    assert_eq!(t.execute(TodoWriteArgs { todos }), Ok(TODO_OK.to_string()));
}

#[test]
fn todo_unfinished_or_short_lists_do_not_nudge() {
    let mut t = TodoWriteTool::new();
    let open = vec![
        todo("a", TodoStatus::Completed),
        todo("b", TodoStatus::Pending),
        todo("c", TodoStatus::Completed),
    ];
    assert_eq!(t.execute(TodoWriteArgs { todos: open }), Ok(TODO_OK.to_string()));
    let short = vec![todo("a", TodoStatus::Completed), todo("b", TodoStatus::Completed)];
    assert_eq!(t.execute(TodoWriteArgs { todos: short }), Ok(TODO_OK.to_string()));
}

#[test]
fn plan_mode_tools() {
    let enter = EnterPlanModeTool::new();
    assert!(enter.execute().unwrap().starts_with("Successfully entered plan mode."));
    let exit = ExitPlanModeTool::new();
    assert_eq!(
        exit.saved_message("/w/.assistant/plan.md"),
        "Successfully exited plan mode and saved the plan to /w/.assistant/plan.md. You are now back in standard execution mode and can use file modification tools to implement the steps."
    );
    assert_eq!(exit.input_schema(), "{\"type\":\"object\",\"properties\":{\"plan\":{\"type\":\"string\",\"description\":\"A clear, actionable step-by-step plan based on your exploration and analysis\"}},\"required\":[\"plan\"]}");
}
