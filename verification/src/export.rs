//! The export of a task list as comma-separated values.

use vstd::prelude::*;
use vstd::string::StringExecFns;

use crate::calendar::date_text;
use crate::calendar::Date;
use crate::model::Task;
use crate::render::status_name;
use crate::render::status_word;
use crate::text::decimal;
use crate::text::decimal_text;

verus! {

/// The first line of the export: the names of the columns.
pub open spec fn csv_header() -> Seq<char> {
    "id,status,priority,deadline,description\n"@
}

/// A deadline in the export: the date, or nothing.
pub open spec fn csv_deadline(deadline: Option<Date>) -> Seq<char> {
    match deadline {
        Some(date) => date_text(date@.0, date@.1, date@.2),
        None => Seq::empty(),
    }
}

/// One task in the export: identifier, status word, priority, deadline, and
/// the description between double quotes, as it is.
pub open spec fn csv_line_of(task: Task) -> Seq<char> {
    decimal(task.id as nat) + ","@ + status_word(task.status) + ","@ + task.priority@ + ","@
        + csv_deadline(task.deadline) + ",\""@ + task.description@ + "\"\n"@
}

/// The export of the first `n` tasks.
pub open spec fn csv_below(tasks: Seq<Task>, n: nat) -> Seq<char>
    decreases n,
{
    if n == 0 {
        csv_header()
    } else {
        csv_below(tasks, (n - 1) as nat) + csv_line_of(tasks[n - 1])
    }
}

/// The export of a task list: the header, then one line per task in list
/// order.
pub open spec fn csv_of(tasks: Seq<Task>) -> Seq<char> {
    csv_below(tasks, tasks.len())
}

/// Writes one task as a line of the export.
pub fn csv_line(task: &Task) -> (line: String)
    ensures
        line@ == csv_line_of(*task),
{
    let mut line = decimal_text(task.id);
    line.append(",");
    line.append(status_name(task.status));
    line.append(",");
    line.append(task.priority.as_str());
    line.append(",");
    match &task.deadline {
        Some(date) => {
            line.append(date.text().as_str());
        },
        None => {
            assert(line@ + csv_deadline(task.deadline) =~= line@);
        },
    }
    line.append(",\"");
    line.append(task.description.as_str());
    line.append("\"\n");
    line
}

/// Writes the export of a task list.
pub fn csv(tasks: &Vec<Task>) -> (out: String)
    ensures
        out@ == csv_of(tasks@),
{
    let mut out = String::from_str("id,status,priority,deadline,description\n");
    let mut i: usize = 0;
    while i < tasks.len()
        invariant
            i <= tasks.len(),
            out@ == csv_below(tasks@, i as nat),
        decreases tasks.len() - i,
    {
        out.append(csv_line(&tasks[i]).as_str());
        i = i + 1;
    }
    out
}

} // verus!
