//! The task listing of the command line: which tasks a filter word lets
//! through, and the line printed for each.

use vstd::prelude::*;
use vstd::string::StringExecFns;

use crate::model::Status;
use crate::model::Task;
use crate::text::decimal;
use crate::text::decimal_text;
use crate::text::pad_right;
use crate::text::padded;
use crate::text::same_text;
use crate::text::text_of;
use crate::text::texts_of;

verus! {

/// Whether a filter word lets a task through. `mine` asks for the user's own
/// tasks, `todo`, `done` and `blocked` for a status; any other word, and no
/// word, lets every task through.
pub open spec fn passes_filter(task: Task, word: Option<Seq<char>>, user: Seq<char>) -> bool {
    match word {
        None => true,
        Some(w) => if w == "mine"@ {
            task.owner@ == user
        } else if w == "todo"@ {
            task.status == Status::Todo
        } else if w == "done"@ {
            task.status == Status::Done
        } else if w == "blocked"@ {
            task.status == Status::Blocked
        } else {
            true
        },
    }
}

/// Tests a task against a filter word.
pub fn passes(task: &Task, word: Option<&str>, user: &str) -> (shown: bool)
    ensures
        shown == passes_filter(*task, text_of(word), user@),
{
    match word {
        None => true,
        Some(w) => {
            if same_text(w, "mine") {
                same_text(task.owner.as_str(), user)
            } else if same_text(w, "todo") {
                task.status == Status::Todo
            } else if same_text(w, "done") {
                task.status == Status::Done
            } else if same_text(w, "blocked") {
                task.status == Status::Blocked
            } else {
                true
            }
        },
    }
}

/// The status in capitals, as the listing prints it.
pub open spec fn status_label_of(status: Status) -> Seq<char> {
    match status {
        Status::Todo => "TODO"@,
        Status::Done => "DONE"@,
        Status::Blocked => "BLOCKED"@,
    }
}

/// The label of a status.
pub fn status_label(status: Status) -> (label: &'static str)
    ensures
        label@ == status_label_of(status),
{
    match status {
        Status::Todo => "TODO",
        Status::Done => "DONE",
        Status::Blocked => "BLOCKED",
    }
}

/// One line of the listing: identifier, status in a column of eight, priority
/// in a column of six, description, owner.
pub open spec fn task_line_of(task: Task) -> Seq<char> {
    "["@ + decimal(task.id as nat) + "] "@ + padded(status_label_of(task.status), 8) + " | "@
        + padded(task.priority@, 6) + " | "@ + task.description@ + " | owner: "@ + task.owner@
}

/// Writes the line of a task.
pub fn task_line(task: &Task) -> (line: String)
    ensures
        line@ == task_line_of(*task),
{
    let mut line = String::from_str("[");
    line.append(decimal_text(task.id).as_str());
    line.append("] ");
    line.append(pad_right(status_label(task.status), 8).as_str());
    line.append(" | ");
    line.append(pad_right(task.priority.as_str(), 6).as_str());
    line.append(" | ");
    line.append(task.description.as_str());
    line.append(" | owner: ");
    line.append(task.owner.as_str());
    line
}

/// The lines of the first `n` tasks that the filter word lets through.
pub open spec fn lines_below(tasks: Seq<Task>, word: Option<Seq<char>>, user: Seq<char>, n: nat) -> Seq<
    Seq<char>,
>
    decreases n,
{
    if n == 0 {
        Seq::empty()
    } else {
        let before = lines_below(tasks, word, user, (n - 1) as nat);
        if passes_filter(tasks[n - 1], word, user) {
            before.push(task_line_of(tasks[n - 1]))
        } else {
            before
        }
    }
}

/// The listing: one line for each task that the filter word lets through, in
/// list order.
pub fn listing(tasks: &Vec<Task>, word: Option<&str>, user: &str) -> (lines: Vec<String>)
    ensures
        texts_of(lines@) == lines_below(tasks@, text_of(word), user@, tasks@.len()),
{
    let mut lines: Vec<String> = Vec::new();
    let mut i: usize = 0;
    while i < tasks.len()
        invariant
            i <= tasks.len(),
            texts_of(lines@) == lines_below(tasks@, text_of(word), user@, i as nat),
        decreases tasks.len() - i,
    {
        let ghost before = texts_of(lines@);
        if passes(&tasks[i], word, user) {
            lines.push(task_line(&tasks[i]));
            assert(texts_of(lines@) =~= before.push(task_line_of(tasks@[i as int])));
        }
        i = i + 1;
    }
    lines
}

} // verus!
