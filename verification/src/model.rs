//! The persisted data: tasks, their status, projects and settings.

use vstd::prelude::*;

use crate::calendar::Date;

verus! {

/// Where a task stands.
#[derive(Clone, Copy, Debug, PartialEq, Eq, Structural)]
pub enum Status {
    Todo,
    Done,
    Blocked,
}

/// The two status changes a user can ask for.
#[derive(Clone, Copy, Debug, PartialEq, Eq, Structural)]
pub enum Toggle {
    /// Flip between `Todo` and `Done`; a blocked task stays blocked.
    Done,
    /// Flip between `Blocked` and `Todo`; a done task becomes blocked.
    Blocked,
}

impl Status {
    /// The transition table of the two toggles.
    pub open spec fn after(self, toggle: Toggle) -> Status {
        match (toggle, self) {
            (Toggle::Done, Status::Todo) => Status::Done,
            (Toggle::Done, Status::Done) => Status::Todo,
            (Toggle::Done, Status::Blocked) => Status::Blocked,
            (Toggle::Blocked, Status::Blocked) => Status::Todo,
            (Toggle::Blocked, Status::Todo) => Status::Blocked,
            (Toggle::Blocked, Status::Done) => Status::Blocked,
        }
    }

    /// Applies one toggle to this status.
    pub fn toggled(self, toggle: Toggle) -> (next: Status)
        ensures
            next == self.after(toggle),
    {
        match toggle {
            Toggle::Done => match self {
                Status::Todo => Status::Done,
                Status::Done => Status::Todo,
                Status::Blocked => Status::Blocked,
            },
            Toggle::Blocked => match self {
                Status::Blocked => Status::Todo,
                _ => Status::Blocked,
            },
        }
    }
}

/// One unit of trackable work.
#[derive(Clone, Debug)]
pub struct Task {
    /// Positive and unique within its project.
    pub id: u32,
    pub description: String,
    pub status: Status,
    /// Free text, by convention `low`, `medium` or `high`.
    pub priority: String,
    pub deadline: Option<Date>,
    pub owner: String,
}

/// No two tasks of the list share an identifier.
pub open spec fn unique_ids(tasks: Seq<Task>) -> bool {
    forall|i: int, j: int|
        0 <= i < tasks.len() && 0 <= j < tasks.len() && i != j ==> #[trigger] tasks[i].id
            != #[trigger] tasks[j].id
}

/// A moment in time: seconds and nanoseconds since the Unix epoch.
#[derive(Clone, Copy, Debug, PartialEq, Eq, Structural)]
pub struct Instant {
    pub seconds: i64,
    pub nanos: u32,
}

/// A named collection of tasks and notes.
#[derive(Clone, Debug)]
pub struct Project {
    pub name: String,
    pub created_at: Instant,
}

/// The user's settings. A missing entry falls back to a built-in value.
#[derive(Clone, Debug)]
pub struct Config {
    pub default_priority: Option<String>,
    pub date_format: Option<String>,
}

/// `at` is the first position in `tasks` of a task with identifier `id`.
pub open spec fn is_first_with_id(tasks: Seq<Task>, id: u32, at: int) -> bool {
    &&& 0 <= at < tasks.len()
    &&& tasks[at].id == id
    &&& forall|before: int| 0 <= before < at ==> tasks[before].id != id
}

/// The first position in `tasks` of a task with identifier `id`.
pub open spec fn position_of(tasks: Seq<Task>, id: u32) -> Option<int> {
    if exists|at: int| is_first_with_id(tasks, id, at) {
        Some(choose|at: int| is_first_with_id(tasks, id, at))
    } else {
        None
    }
}

/// Finds the first task with identifier `id`.
pub fn find_by_id(tasks: &Vec<Task>, id: u32) -> (found: Option<usize>)
    ensures
        found matches Some(at) ==> position_of(tasks@, id) == Some(at as int),
        found is None ==> position_of(tasks@, id) is None,
{
    let mut i: usize = 0;
    while i < tasks.len()
        invariant
            i <= tasks.len(),
            forall|before: int| 0 <= before < i ==> tasks@[before].id != id,
        decreases tasks.len() - i,
    {
        if tasks[i].id == id {
            assert(is_first_with_id(tasks@, id, i as int));
            return Some(i);
        }
        i = i + 1;
    }
    None
}

/// A task's identifier is found in the list, at the task's position or before.
pub proof fn lemma_id_has_position(tasks: Seq<Task>, at: int)
    requires
        0 <= at < tasks.len(),
    ensures
        position_of(tasks, tasks[at].id) matches Some(first) && 0 <= first <= at && tasks[first].id
            == tasks[at].id,
        unique_ids(tasks) ==> position_of(tasks, tasks[at].id) == Some(at),
    decreases at,
{
    let id = tasks[at].id;
    if forall|before: int| 0 <= before < at ==> tasks[before].id != id {
        assert(is_first_with_id(tasks, id, at));
    } else {
        let before = choose|before: int| 0 <= before < at && tasks[before].id == id;
        lemma_id_has_position(tasks, before);
    }
    let first = choose|first: int| is_first_with_id(tasks, id, first);
    assert(is_first_with_id(tasks, id, first));
    if first > at {
        assert(tasks[at].id != id);
    }
}

} // verus!
