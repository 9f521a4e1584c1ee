use vstd::prelude::*;

verus! {

/// The state of a task in the store.
#[derive(Clone, Copy, Debug, PartialEq, Eq, Structural)]
pub enum TaskStatus {
    Open,
    Closed,
    Deleted,
}

/// A task that is still open.
#[derive(Clone, Debug)]
pub struct OpenTask {
    pub id: i64,
    pub create_time: String,
    pub task: String,
}

/// A task in any state.
#[derive(Clone, Debug)]
pub struct Task {
    pub id: i64,
    pub create_time: String,
    pub finished_time: Option<String>,
    pub task: String,
    pub status: TaskStatus,
}

/// A task row as the store holds it, with its status as text.
#[derive(Clone, Debug)]
pub struct TaskImpl {
    pub id: i64,
    pub create_time: String,
    pub finished_time: Option<String>,
    pub task: String,
    pub status: String,
}

/// A request to add a task by name.
#[derive(Clone, Debug)]
pub struct StructRequest {
    pub task_name: String,
}

/// The status that the store writes as `s`, if any.
pub open spec fn status_of(s: Seq<char>) -> Option<TaskStatus> {
    if s == "open"@ {
        Some(TaskStatus::Open)
    } else if s == "closed"@ {
        Some(TaskStatus::Closed)
    } else if s == "deleted"@ {
        Some(TaskStatus::Deleted)
    } else {
        None
    }
}

/// The word that a listing shows for a status.
pub open spec fn status_label(s: TaskStatus) -> Seq<char> {
    match s {
        TaskStatus::Open => "OPEN"@,
        TaskStatus::Closed => "CLOSE"@,
        TaskStatus::Deleted => "DELETE"@,
    }
}

impl TaskStatus {
    /// The status that the store writes as `s`; `None` for any other text.
    pub fn parse(s: &str) -> (r: Option<TaskStatus>)
        ensures
            r == status_of(s@),
    {
        let s = s.to_owned();
        if s == "open".to_owned() {
            Some(TaskStatus::Open)
        } else if s == "closed".to_owned() {
            Some(TaskStatus::Closed)
        } else if s == "deleted".to_owned() {
            Some(TaskStatus::Deleted)
        } else {
            None
        }
    }

    /// The word that a listing shows for this status.
    pub fn label(&self) -> (r: &'static str)
        ensures
            r@ == status_label(*self),
    {
        match self {
            TaskStatus::Open => "OPEN",
            TaskStatus::Closed => "CLOSE",
            TaskStatus::Deleted => "DELETE",
        }
    }
}

fn clone_opt(s: &Option<String>) -> (r: Option<String>)
    ensures
        r == *s,
{
    match s {
        Some(t) => Some(t.clone()),
        None => None,
    }
}

impl TaskImpl {
    /// The task that this row holds; `None` where its status is not one that
    /// the store writes.
    pub fn to_task(&self) -> (r: Option<Task>)
        ensures
            r is None <==> status_of(self.status@) is None,
            r matches Some(t) ==> {
                &&& t.id == self.id
                &&& t.create_time == self.create_time
                &&& t.finished_time == self.finished_time
                &&& t.task == self.task
                &&& Some(t.status) == status_of(self.status@)
            },
    {
        match TaskStatus::parse(self.status.as_str()) {
            Some(status) => Some(
                Task {
                    id: self.id,
                    create_time: self.create_time.clone(),
                    finished_time: clone_opt(&self.finished_time),
                    task: self.task.clone(),
                    status,
                },
            ),
            None => None,
        }
    }
}

/// The options of a menu that picks one of `tasks`: their names, then
/// `cancel` on the last row.
pub fn task_options(tasks: &Vec<OpenTask>) -> (r: Vec<String>)
    ensures
        r@.len() == tasks@.len() + 1,
        forall|i: int| 0 <= i < tasks@.len() ==> (#[trigger] r@[i])@ == tasks@[i].task@,
        r@[tasks@.len() as int]@ == "cancel"@,
{
    let mut r: Vec<String> = Vec::new();
    let mut i: usize = 0;
    while i < tasks.len()
        invariant
            i <= tasks@.len(),
            r@.len() == i,
            forall|j: int| 0 <= j < i ==> (#[trigger] r@[j])@ == tasks@[j].task@,
        decreases tasks@.len() - i,
    {
        r.push(tasks[i].task.clone());
        i = i + 1;
    }
    r.push("cancel".to_owned());
    r
}

/// The task picked on the menu of `task_options`: `None` where the
/// choice is the `cancel` row.
pub fn picked_task(tasks: &Vec<OpenTask>, index: usize) -> (r: Option<OpenTask>)
    requires
        index <= tasks@.len(),
    ensures
        r is None <==> index == tasks@.len(),
        r matches Some(t) ==> {
            &&& t.id == tasks@[index as int].id
            &&& t.create_time == tasks@[index as int].create_time
            &&& t.task == tasks@[index as int].task
        },
{
    if index == tasks.len() {
        None
    } else {
        let t = &tasks[index];
        Some(OpenTask { id: t.id, create_time: t.create_time.clone(), task: t.task.clone() })
    }
}

} // verus!
