//! Projects: what a new project's files hold, the line that lists a
//! project, the line that a note becomes.

use vstd::prelude::*;
use vstd::string::StringExecFns;

use crate::model::Instant;
use crate::model::Project;

verus! {

/// What creating a project comes to.
#[derive(Clone, Copy, Debug, PartialEq, Eq, Structural)]
pub enum Creation {
    /// A project of that name is there already; nothing is written.
    AlreadyExists,
    /// The directory and its three files are to be written.
    Create,
}

/// Decides on a request to create a project, given whether a project of that
/// name is there already.
pub fn creation(present: bool) -> (decision: Creation)
    ensures
        present ==> decision == Creation::AlreadyExists,
        !present ==> decision == Creation::Create,
{
    if present {
        Creation::AlreadyExists
    } else {
        Creation::Create
    }
}

/// The metadata of a project created at the given moment.
pub fn new_project(name: &str, created_at: Instant) -> (project: Project)
    ensures
        project.name@ == name@,
        project.created_at == created_at,
{
    Project { name: String::from_str(name), created_at }
}

/// The task file of a new project: an empty list.
pub open spec fn empty_task_file() -> Seq<char> {
    "[]"@
}

/// What the task file of a new project holds.
pub fn fresh_task_file() -> (content: &'static str)
    ensures
        content@ == empty_task_file(),
{
    "[]"
}

/// The line that a note adds to the notes file.
pub open spec fn note_line_of(note: Seq<char>) -> Seq<char> {
    "- "@ + note + "\n"@
}

/// Writes the line of a note.
pub fn note_line(note: &str) -> (line: String)
    ensures
        line@ == note_line_of(note@),
{
    let mut line = String::from_str("- ");
    line.append(note);
    line.append("\n");
    line
}

/// The line that lists a project; `created` is the moment of creation as the
/// reader's clock writes it.
pub open spec fn project_line_of(name: Seq<char>, created: Seq<char>) -> Seq<char> {
    "📁 "@ + name + "  (created "@ + created + ")"@
}

/// Writes the line of a project.
pub fn project_line(name: &str, created: &str) -> (line: String)
    ensures
        line@ == project_line_of(name@, created@),
{
    let mut line = String::from_str("📁 ");
    line.append(name);
    line.append("  (created ");
    line.append(created);
    line.append(")");
    line
}

} // verus!
