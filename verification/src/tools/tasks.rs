//! Workspace task list: numbered tasks that can be created, read, updated and listed.

use vstd::prelude::*;
use crate::text::{clone_opt, clone_strings, concat, decimal_seq, digit_char, opt_view, str_eq, u64_to_string};

verus! {

/// Progress of a task.
#[derive(Clone, Copy, Debug, PartialEq, Eq, Structural)]
pub enum TaskStatus {
    Pending,
    InProgress,
    Completed,
}

/// A task in the workspace task list.
pub struct Task {
    pub id: String,
    pub subject: String,
    pub description: String,
    pub active_form: Option<String>,
    pub status: TaskStatus,
    pub owner: Option<String>,
    pub blocks: Vec<String>,
    pub blocked_by: Vec<String>,
}

/// Mathematical value of a task.
pub struct TaskView {
    pub id: Seq<char>,
    pub subject: Seq<char>,
    pub description: Seq<char>,
    pub active_form: Option<Seq<char>>,
    pub status: TaskStatus,
    pub owner: Option<Seq<char>>,
    pub blocks: Seq<Seq<char>>,
    pub blocked_by: Seq<Seq<char>>,
}

impl View for Task {
    type V = TaskView;

    open spec fn view(&self) -> TaskView {
        TaskView {
            id: self.id@,
            subject: self.subject@,
            description: self.description@,
            active_form: opt_view(self.active_form),
            status: self.status,
            owner: opt_view(self.owner),
            blocks: self.blocks.deep_view(),
            blocked_by: self.blocked_by.deep_view(),
        }
    }
}

impl Task {
    /// A copy of the task.
    pub fn duplicate(&self) -> (r: Task)
        ensures
            r@ == self@,
    {
        Task {
            id: self.id.clone(),
            subject: self.subject.clone(),
            description: self.description.clone(),
            active_form: clone_opt(&self.active_form),
            status: self.status,
            owner: clone_opt(&self.owner),
            blocks: clone_strings(&self.blocks),
            blocked_by: clone_strings(&self.blocked_by),
        }
    }
}

/// Changes to apply to a task; `None` leaves a field as it is.
pub struct TaskUpdate {
    pub subject: Option<String>,
    pub description: Option<String>,
    pub status: Option<TaskStatus>,
    pub owner: Option<String>,
    pub blocked_by: Option<Vec<String>>,
}

/// Mathematical value of a task update.
pub struct TaskUpdateView {
    pub subject: Option<Seq<char>>,
    pub description: Option<Seq<char>>,
    pub status: Option<TaskStatus>,
    pub owner: Option<Seq<char>>,
    pub blocked_by: Option<Seq<Seq<char>>>,
}

impl View for TaskUpdate {
    type V = TaskUpdateView;

    open spec fn view(&self) -> TaskUpdateView {
        TaskUpdateView {
            subject: opt_view(self.subject),
            description: opt_view(self.description),
            status: self.status,
            owner: opt_view(self.owner),
            blocked_by: match self.blocked_by {
                Some(v) => Some(v.deep_view()),
                None => None,
            },
        }
    }
}

/// `t` with the fields that `u` sets replaced.
pub open spec fn apply_update(t: TaskView, u: TaskUpdateView) -> TaskView {
    TaskView {
        subject: match u.subject { Some(s) => s, None => t.subject },
        description: match u.description { Some(d) => d, None => t.description },
        status: match u.status { Some(s) => s, None => t.status },
        owner: match u.owner { Some(o) => Some(o), None => t.owner },
        blocked_by: match u.blocked_by { Some(b) => b, None => t.blocked_by },
        ..t
    }
}

/// The id that the task at position `i` carries: its number, counting from one.
pub open spec fn id_at(i: int) -> Seq<char> {
    decimal_seq((i + 1) as nat)
}

/// Every task carries the number of its position, counting from one.
pub open spec fn numbered(tasks: Seq<TaskView>) -> bool {
    forall|i: int| 0 <= i < tasks.len() ==> #[trigger] tasks[i].id == id_at(i)
}

/// Position of the task with the given id, if there is one.
pub open spec fn position_of(tasks: Seq<TaskView>, id: Seq<char>) -> Option<int> {
    if exists|i: int| 0 <= i < tasks.len() && #[trigger] tasks[i].id == id {
        Some(choose|i: int| 0 <= i < tasks.len() && #[trigger] tasks[i].id == id)
    } else {
        None
    }
}

/// The task with the given id, if there is one.
pub open spec fn lookup(tasks: Seq<TaskView>, id: Seq<char>) -> Option<TaskView> {
    match position_of(tasks, id) {
        Some(i) => Some(tasks[i]),
        None => None,
    }
}

/// The task list after adding `t` under the next free number.
pub open spec fn created(tasks: Seq<TaskView>, t: TaskView) -> Seq<TaskView> {
    tasks.push(TaskView { id: id_at(tasks.len() as int), ..t })
}

/// The task list after applying `u` to the task with id `id`, if it exists.
pub open spec fn updated(tasks: Seq<TaskView>, id: Seq<char>, u: TaskUpdateView) -> Option<Seq<TaskView>> {
    match position_of(tasks, id) {
        Some(i) => Some(tasks.update(i, apply_update(tasks[i], u))),
        None => None,
    }
}

/// The message of the error for an unknown task id.
pub open spec fn task_not_found_message(id: Seq<char>) -> Seq<char> {
    "Task not found: "@ + id
}

/// Workspace task list; tasks are numbered from one in order of creation.
pub struct TaskManager {
    tasks_dir: String,
    tasks: Vec<Task>,
}

impl View for TaskManager {
    type V = Seq<TaskView>;

    closed spec fn view(&self) -> Seq<TaskView> {
        self.tasks@.map_values(|t: Task| t@)
    }
}

impl TaskManager {
    /// The manager's invariant: tasks are numbered by position and the next
    /// number fits in a `u64`.
    pub open spec fn wf(&self) -> bool {
        &&& numbered(self@)
        &&& self@.len() < u64::MAX
    }

    /// The directory the tasks belong under.
    pub closed spec fn tasks_dir(&self) -> Seq<char> {
        self.tasks_dir@
    }

    /// An empty task list whose tasks belong under `tasks_dir`.
    pub fn new(tasks_dir: String) -> (m: TaskManager)
        ensures
            m.wf(),
            m@ == Seq::<TaskView>::empty(),
            m.tasks_dir() == tasks_dir@,
    {
        let m = TaskManager { tasks_dir, tasks: Vec::new() };
        assert(m@ =~= Seq::<TaskView>::empty());
        m
    }

    /// Number of tasks.
    pub fn len(&self) -> (n: usize)
        ensures
            n == self@.len(),
    {
        self.tasks.len()
    }

    /// Adds `task` under the next number and returns that number as its id.
    pub fn create_task(&mut self, task: Task) -> (r: Result<String, String>)
        requires
            old(self).wf(),
            old(self)@.len() + 1 < u64::MAX,
        ensures
            final(self).wf(),
            r is Ok,
            r->Ok_0@ == id_at(old(self)@.len() as int),
            final(self)@ == created(old(self)@, task@),
    {
        let n = self.tasks.len() as u64 + 1;
        let new_id = u64_to_string(n);
        let mut new_task = task;
        new_task.id = new_id.clone();
        let ghost before = self@;
        self.tasks.push(new_task);
        proof {
            assert(self@ =~= created(before, task@));
        }
        Ok(new_id)
    }

    /// Position of the task with id `id`.
    fn find(&self, id: &str) -> (r: Option<usize>)
        ensures
            match r {
                Some(i) => i < self@.len() && self@[i as int].id == id@,
                None => forall|i: int| 0 <= i < self@.len() ==> #[trigger] self@[i].id != id@,
            },
    {
        let mut i: usize = 0;
        while i < self.tasks.len()
            invariant
                i <= self.tasks.len(),
                self@.len() == self.tasks.len(),
                forall|k: int| 0 <= k < i ==> #[trigger] self@[k].id != id@,
            decreases self.tasks.len() - i,
        {
            if str_eq(self.tasks[i].id.as_str(), id) {
                return Some(i);
            }
            i = i + 1;
        }
        None
    }

    /// A copy of the task with id `id`, if it exists.
    pub fn get_task(&self, id: &str) -> (r: Option<Task>)
        requires
            self.wf(),
        ensures
            match r {
                Some(t) => lookup(self@, id@) == Some(t@),
                None => lookup(self@, id@) is None,
            },
    {
        match self.find(id) {
            Some(i) => {
                proof {
                    lemma_position_unique(self@, i as int);
                }
                Some(self.tasks[i].duplicate())
            },
            None => None,
        }
    }

    /// Applies `updates` to the task with id `id`; fails with a message when
    /// no task has that id, leaving the list unchanged.
    pub fn update_task(&mut self, id: &str, updates: TaskUpdate) -> (r: Result<(), String>)
        requires
            old(self).wf(),
        ensures
            final(self).wf(),
            match updated(old(self)@, id@, updates@) {
                Some(m) => r is Ok && final(self)@ == m,
                None => r matches Err(e) && e@ == task_not_found_message(id@)
                    && final(self)@ == old(self)@,
            },
    {
        match self.find(id) {
            Some(i) => {
                proof {
                    lemma_position_unique(self@, i as int);
                }
                let ghost before = self@;
                let ghost u = updates@;
                let mut t = self.tasks.remove(i);
                let TaskUpdate { subject, description, status, owner, blocked_by } = updates;
                if let Some(s) = subject {
                    t.subject = s;
                }
                if let Some(d) = description {
                    t.description = d;
                }
                if let Some(s) = status {
                    t.status = s;
                }
                if let Some(o) = owner {
                    t.owner = Some(o);
                }
                if let Some(b) = blocked_by {
                    t.blocked_by = b;
                }
                assert(t@ == apply_update(before[i as int], u));
                self.tasks.insert(i, t);
                proof {
                    assert(self@ =~= before.update(i as int, apply_update(before[i as int], u)));
                }
                Ok(())
            },
            None => {
                proof {
                    assert(!exists|k: int| 0 <= k < self@.len() && #[trigger] self@[k].id == id@);
                }
                Err(concat("Task not found: ", id))
            },
        }
    }

    /// Copies of all tasks, in order of their numbers.
    pub fn list_tasks(&self) -> (r: Vec<Task>)
        ensures
            r@.map_values(|t: Task| t@) == self@,
    {
        let mut r: Vec<Task> = Vec::new();
        let mut i: usize = 0;
        while i < self.tasks.len()
            invariant
                i <= self.tasks.len(),
                self@.len() == self.tasks.len(),
                r.len() == i,
                r@.map_values(|t: Task| t@) == self@.take(i as int),
            decreases self.tasks.len() - i,
        {
            let t = self.tasks[i].duplicate();
            let ghost before = r@;
            r.push(t);
            assert(r@ == before.push(t));
            assert(self@[i as int] == self.tasks@[i as int]@);
            assert(r@.map_values(|t: Task| t@) =~= self@.take(i + 1));
            i = i + 1;
        }
        assert(self@.take(self.tasks.len() as int) =~= self@);
        r
    }
}

/// Distinct numbers have distinct decimal notations.
pub proof fn lemma_decimal_injective(a: nat, b: nat)
    requires
        decimal_seq(a) == decimal_seq(b),
    ensures
        a == b,
    decreases a + b,
{
    if a < 10 && b < 10 {
        assert(decimal_seq(a)[0] == digit_char(a));
    } else if a < 10 {
        lemma_decimal_len(b / 10);
        assert(decimal_seq(b).len() >= 2);
    } else if b < 10 {
        lemma_decimal_len(a / 10);
        assert(decimal_seq(a).len() >= 2);
    } else {
        let da = decimal_seq(a);
        let db = decimal_seq(b);
        assert(da.drop_last() =~= decimal_seq(a / 10));
        assert(db.drop_last() =~= decimal_seq(b / 10));
        lemma_decimal_injective(a / 10, b / 10);
        assert(digit_char(a % 10) == da.last());
        assert(digit_char(a % 10) == digit_char(b % 10));
    }
}

/// Decimal notation is never empty.
pub proof fn lemma_decimal_len(n: nat)
    ensures
        decimal_seq(n).len() >= 1,
    decreases n,
{
    if n >= 10 {
        lemma_decimal_len(n / 10);
    }
}

/// In a numbered list, the task found at position `i` is the only one with its id.
pub proof fn lemma_position_unique(tasks: Seq<TaskView>, i: int)
    requires
        numbered(tasks),
        0 <= i < tasks.len(),
    ensures
        position_of(tasks, tasks[i].id) == Some(i),
{
    let id = tasks[i].id;
    assert(0 <= i < tasks.len() && tasks[i].id == id);
    let j = choose|j: int| 0 <= j < tasks.len() && #[trigger] tasks[j].id == id;
    lemma_decimal_injective((i + 1) as nat, (j + 1) as nat);
}


/// No two tasks of a numbered list share an id.
pub proof fn law_ids_distinct(tasks: Seq<TaskView>, i: int, j: int)
    requires
        numbered(tasks),
        0 <= i < tasks.len(),
        0 <= j < tasks.len(),
        i != j,
    ensures
        tasks[i].id != tasks[j].id,
{
    if tasks[i].id == tasks[j].id {
        lemma_decimal_injective((i + 1) as nat, (j + 1) as nat);
    }
}

/// Reading back a task just created, under the id that creation returned,
/// gives that task; every other id reads as before.
pub proof fn law_get_after_create(tasks: Seq<TaskView>, t: TaskView, other: Seq<char>)
    requires
        numbered(tasks),
        other != id_at(tasks.len() as int),
    ensures
        numbered(created(tasks, t)),
        lookup(created(tasks, t), id_at(tasks.len() as int)) == Some(
            TaskView { id: id_at(tasks.len() as int), ..t },
        ),
        lookup(created(tasks, t), other) == lookup(tasks, other),
{
    let c = created(tasks, t);
    assert(numbered(c));
    lemma_position_unique(c, tasks.len() as int);
    if exists|k: int| 0 <= k < tasks.len() && #[trigger] tasks[k].id == other {
        let k = choose|k: int| 0 <= k < tasks.len() && #[trigger] tasks[k].id == other;
        lemma_position_unique(tasks, k);
        lemma_position_unique(c, k);
        assert(c[k] == tasks[k]);
    } else {
        assert forall|k: int| 0 <= k < c.len() implies #[trigger] c[k].id != other by {
            if k < tasks.len() {
                assert(c[k] == tasks[k]);
            }
        }
    }
}

/// After a successful update, the task reads back with the update applied,
/// keeps its id, and every other task reads as before.
pub proof fn law_get_after_update(tasks: Seq<TaskView>, id: Seq<char>, u: TaskUpdateView, other: Seq<char>)
    requires
        numbered(tasks),
        lookup(tasks, id) is Some,
        other != id,
    ensures
        updated(tasks, id, u) is Some,
        numbered(updated(tasks, id, u)->0),
        lookup(updated(tasks, id, u)->0, id) == Some(apply_update(lookup(tasks, id)->0, u)),
        lookup(updated(tasks, id, u)->0, other) == lookup(tasks, other),
{
    let i = position_of(tasks, id)->0;
    let m = updated(tasks, id, u)->0;
    assert(m[i].id == tasks[i].id);
    assert(numbered(m)) by {
        assert forall|k: int| 0 <= k < m.len() implies #[trigger] m[k].id == id_at(k) by {
            if k != i {
                assert(m[k] == tasks[k]);
            }
        }
    }
    lemma_position_unique(m, i);
    if exists|k: int| 0 <= k < tasks.len() && #[trigger] tasks[k].id == other {
        let k = choose|k: int| 0 <= k < tasks.len() && #[trigger] tasks[k].id == other;
        lemma_position_unique(tasks, k);
        lemma_position_unique(m, k);
        assert(k != i);
    } else {
        assert forall|k: int| 0 <= k < m.len() implies #[trigger] m[k].id != other by {
            if k != i {
                assert(m[k] == tasks[k]);
            }
        }
    }
}

/// An update is refused exactly when no task has the id.
pub proof fn law_update_refused_iff_missing(tasks: Seq<TaskView>, id: Seq<char>, u: TaskUpdateView)
    ensures
        updated(tasks, id, u) is None <==> lookup(tasks, id) is None,
{
}

/// Each field an update sets reads back as set, each field it leaves out
/// reads back as before, and the task keeps its id, its active form and the
/// tasks it blocks.
pub proof fn law_update_sets_each_field(tasks: Seq<TaskView>, id: Seq<char>, u: TaskUpdateView)
    requires
        numbered(tasks),
        lookup(tasks, id) is Some,
    ensures
        ({
            let before = lookup(tasks, id)->0;
            let after = lookup(updated(tasks, id, u)->0, id)->0;
            &&& lookup(updated(tasks, id, u)->0, id) is Some
            &&& u.subject matches Some(x) ==> after.subject == x
            &&& u.subject is None ==> after.subject == before.subject
            &&& u.description matches Some(x) ==> after.description == x
            &&& u.description is None ==> after.description == before.description
            &&& u.status matches Some(x) ==> after.status == x
            &&& u.status is None ==> after.status == before.status
            &&& u.owner matches Some(x) ==> after.owner == Some(x)
            &&& u.owner is None ==> after.owner == before.owner
            &&& u.blocked_by matches Some(x) ==> after.blocked_by == x
            &&& u.blocked_by is None ==> after.blocked_by == before.blocked_by
            &&& after.id == id
            &&& after.active_form == before.active_form
            &&& after.blocks == before.blocks
        }),
{
    assert(id.push('#').len() != id.len());
    law_get_after_update(tasks, id, u, id.push('#'));
    let i = position_of(tasks, id)->0;
    assert(tasks[i].id == id);
}

} // verus!
