//! Changes to a project's task list from the command line: a new task, a
//! task marked done.

use vstd::prelude::*;
use vstd::string::StringExecFns;

use crate::calendar::parsed_date;
use crate::calendar::Date;
use crate::config::date_format;
use crate::config::date_format_of;
use crate::config::priority;
use crate::config::priority_of;
use crate::model::find_by_id;
use crate::model::position_of;
use crate::model::Config;
use crate::model::Status;
use crate::model::Task;
use crate::text::text_of;

verus! {

/// Why a task could not be added.
#[derive(Clone, Copy, Debug, PartialEq, Eq, Structural)]
pub enum AddError {
    /// The deadline does not fit the date format of the settings.
    InvalidDate,
    /// The list is too long for another identifier.
    ListFull,
}

/// The name under which tasks are filed when the user's name is not known.
pub open spec fn unknown_owner() -> Seq<char> {
    "unknown"@
}

/// The owner of new tasks: the user's name, or `unknown`.
pub fn owner_or_unknown(user: Option<String>) -> (owner: String)
    ensures
        user matches Some(name) ==> owner == name,
        user is None ==> owner@ == unknown_owner(),
{
    match user {
        Some(name) => name,
        None => String::from_str("unknown"),
    }
}

/// The identifier of the next task of a list: one more than its length.
pub fn next_id(tasks: &Vec<Task>) -> (id: Option<u32>)
    ensures
        tasks@.len() < u32::MAX ==> id == Some((tasks@.len() + 1) as u32),
        tasks@.len() >= u32::MAX ==> id is None,
{
    let len = tasks.len();
    if len < u32::MAX as usize {
        Some(len as u32 + 1)
    } else {
        None
    }
}

/// The deadline that a call names: none, a date, or a text that is no date
/// under `format`.
pub open spec fn deadline_of(given: Option<Seq<char>>, format: Seq<char>) -> Result<
    Option<(int, int, int)>,
    AddError,
> {
    match given {
        None => Ok(None),
        Some(text) => match parsed_date(text, format) {
            Some(ymd) => Ok(Some(ymd)),
            None => Err(AddError::InvalidDate),
        },
    }
}

/// Reads the deadline of a call under the date format of the settings.
pub fn read_deadline(given: Option<&str>, format: &str) -> (deadline: Result<Option<Date>, AddError>)
    ensures
        match deadline {
            Ok(Some(date)) => deadline_of(text_of(given), format@) == Ok::<
                Option<(int, int, int)>,
                AddError,
            >(Some(date@)),
            Ok(None) => given is None,
            Err(e) => deadline_of(text_of(given), format@) == Err::<
                Option<(int, int, int)>,
                AddError,
            >(e),
        },
{
    match given {
        None => Ok(None),
        Some(text) => match Date::parse(text, format) {
            Some(date) => Ok(Some(date)),
            None => Err(AddError::InvalidDate),
        },
    }
}

/// `task` is the task that a call with these arguments adds to a list of
/// `len` tasks.
pub open spec fn is_new_task(
    task: Task,
    len: nat,
    description: Seq<char>,
    given_priority: Option<Seq<char>>,
    given_deadline: Option<Seq<char>>,
    config: Config,
    owner: Seq<char>,
) -> bool {
    &&& task.id == len + 1
    &&& task.description@ == description
    &&& task.status == Status::Todo
    &&& task.priority@ == priority_of(given_priority, config)
    &&& match deadline_of(given_deadline, date_format_of(config)) {
        Ok(Some(ymd)) => task.deadline matches Some(date) && date@ == ymd,
        Ok(None) => task.deadline is None,
        Err(_) => false,
    }
    &&& task.owner@ == owner
}

/// Appends a new task. Its identifier is the list's length plus one, its
/// status `Todo`; priority and deadline format fall back to the settings. A
/// deadline that is no date, or a list too long to number, leaves the list
/// untouched.
pub fn add_task(
    tasks: &mut Vec<Task>,
    description: &str,
    given_priority: Option<&str>,
    given_deadline: Option<&str>,
    config: &Config,
    owner: &str,
) -> (result: Result<(), AddError>)
    ensures
        match result {
            Ok(()) => {
                &&& old(tasks)@.len() < u32::MAX
                &&& final(tasks)@.len() == old(tasks)@.len() + 1
                &&& final(tasks)@.drop_last() == old(tasks)@
                &&& is_new_task(
                    final(tasks)@.last(),
                    old(tasks)@.len(),
                    description@,
                    text_of(given_priority),
                    text_of(given_deadline),
                    *config,
                    owner@,
                )
            },
            Err(AddError::InvalidDate) => {
                &&& deadline_of(text_of(given_deadline), date_format_of(*config)) is Err
                &&& final(tasks)@ == old(tasks)@
            },
            Err(AddError::ListFull) => {
                &&& deadline_of(text_of(given_deadline), date_format_of(*config)) is Ok
                &&& old(tasks)@.len() >= u32::MAX
                &&& final(tasks)@ == old(tasks)@
            },
        },
{
    let deadline = match read_deadline(given_deadline, date_format(config)) {
        Ok(deadline) => deadline,
        Err(e) => {
            return Err(e);
        },
    };
    let id = match next_id(tasks) {
        Some(id) => id,
        None => {
            return Err(AddError::ListFull);
        },
    };
    let task = Task {
        id,
        description: String::from_str(description),
        status: Status::Todo,
        priority: priority(given_priority, config),
        deadline,
        owner: String::from_str(owner),
    };
    tasks.push(task);
    assert(tasks@.drop_last() =~= old(tasks)@);
    Ok(())
}

/// The list with the first task of identifier `id` set to `status`; the list
/// itself where there is no such task.
pub open spec fn with_status(tasks: Seq<Task>, id: u32, status: Status) -> Seq<Task> {
    match position_of(tasks, id) {
        Some(at) => tasks.update(at, Task { status, ..tasks[at] }),
        None => tasks,
    }
}

/// Marks the first task with identifier `id` as done and says whether there
/// was one.
pub fn mark_done(tasks: &mut Vec<Task>, id: u32) -> (found: bool)
    ensures
        found == position_of(old(tasks)@, id).is_some(),
        final(tasks)@ == with_status(old(tasks)@, id, Status::Done),
{
    match find_by_id(tasks, id) {
        Some(at) => {
            tasks[at].status = Status::Done;
            true
        },
        None => false,
    }
}

} // verus!
