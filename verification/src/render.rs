//! The render engine: from the task list, the filtered view and the session
//! to the three panes of the screen. Nothing here draws; the result says what
//! is to be drawn where.

use ratatui::layout::Constraint;
use ratatui::layout::Direction;
use ratatui::layout::Layout;
use ratatui::layout::Rect;
use vstd::prelude::*;
use vstd::string::StringExecFns;

use crate::calendar::date_text;
use crate::calendar::Date;
use crate::model::Status;
use crate::model::Task;
use crate::session::Mode;
use crate::session::Session;
use crate::session::SessionView;
use crate::text::decimal;
use crate::text::decimal_text;
use crate::text::pad_right;
use crate::text::padded;

verus! {

/// A rectangle of terminal cells.
#[derive(Clone, Copy, Debug, PartialEq, Eq, Structural)]
pub struct Area {
    pub x: u16,
    pub y: u16,
    pub width: u16,
    pub height: u16,
}

/// The colour of a list entry.
#[derive(Clone, Copy, Debug, PartialEq, Eq, Structural)]
pub enum Tint {
    White,
    Green,
    Red,
}

/// One entry of the list pane.
#[derive(Debug)]
pub struct Row {
    pub text: String,
    pub tint: Tint,
}

/// The three panes and what they show.
#[derive(Debug)]
pub struct Screen {
    pub bar_area: Area,
    pub list_area: Area,
    pub detail_area: Area,
    /// The search prompt or the help line.
    pub bar: String,
    /// The filtered view, one row per task.
    pub rows: Vec<Row>,
    /// The row to highlight.
    pub highlighted: usize,
    /// All fields of the selected task; nothing with an empty view.
    pub detail: Option<String>,
}

/// The height that the top bar asks for.
pub const BAR_HEIGHT: u16 = 3;

/// The least height that the panes below the bar ask for.
pub const BODY_MIN_HEIGHT: u16 = 1;

/// The share of the width that the list pane asks for, in percent.
pub const LIST_PERCENT: u16 = 45;

/// The share of the width that the detail pane asks for, in percent.
pub const DETAIL_PERCENT: u16 = 55;

/// Every part lies in the column range of `area`.
pub open spec fn stacked_in(parts: Seq<Area>, area: Area) -> bool {
    forall|i: int| 0 <= i < parts.len() ==> (#[trigger] parts[i]).x == area.x && parts[i].width
        == area.width
}

/// Every part lies in the row range of `area`.
pub open spec fn side_by_side_in(parts: Seq<Area>, area: Area) -> bool {
    forall|i: int| 0 <= i < parts.len() ==> (#[trigger] parts[i]).y == area.y && parts[i].height
        == area.height
}

/// The direction in which an area is divided.
#[derive(Clone, Copy, Debug, PartialEq, Eq, Structural)]
pub enum Axis {
    /// Parts lie below one another.
    Rows,
    /// Parts lie beside one another.
    Columns,
}

/// What a part of a divided area asks for.
#[derive(Clone, Copy, Debug, PartialEq, Eq, Structural)]
pub enum Share {
    /// So many cells.
    Length(u16),
    /// At least so many cells.
    Min(u16),
    /// So many hundredths of the whole.
    Percentage(u16),
}

/// Where an area begins along an axis.
pub open spec fn start_of(area: Area, axis: Axis) -> int {
    match axis {
        Axis::Rows => area.y as int,
        Axis::Columns => area.x as int,
    }
}

/// How far an area reaches along an axis.
pub open spec fn extent_of(area: Area, axis: Axis) -> int {
    match axis {
        Axis::Rows => area.height as int,
        Axis::Columns => area.width as int,
    }
}

/// Along `axis` the two parts lie inside `area`, the first before the second,
/// and do not overlap.
pub open spec fn in_order_within(first: Area, second: Area, area: Area, axis: Axis) -> bool {
    &&& start_of(area, axis) <= start_of(first, axis)
    &&& start_of(first, axis) + extent_of(first, axis) <= start_of(second, axis)
    &&& start_of(second, axis) + extent_of(second, axis) <= start_of(area, axis) + extent_of(
        area,
        axis,
    )
}

/// A fixed length, followed by a least length, for which `area` has room
/// along `axis`.
pub open spec fn has_room_for(area: Area, axis: Axis, first: Share, second: Share) -> bool {
    &&& first is Length
    &&& second is Min
    &&& first->Length_0 + second->Min_0 <= extent_of(area, axis)
    &&& start_of(area, axis) + extent_of(area, axis) <= u16::MAX
}

/// `Layout::split` of ratatui with two constraints: two rectangles. Divided
/// into rows, each has the columns of `area`; divided into columns, each has
/// its rows. Along the axis both lie inside `area`, the first before the
/// second: the solver is required to keep every edge between the ends of the
/// area and in ascending order. A fixed length is kept where the area has
/// room for it and for the least length that follows, as the documentation
/// of `Constraint::Length` and of `Layout::split` has it. Where else the cut
/// falls is the solver's answer and is not stated.
#[verifier::external_body]
fn split(area: Area, axis: Axis, first: Share, second: Share) -> (parts: Vec<Area>)
    ensures
        parts@.len() == 2,
        axis == Axis::Rows ==> stacked_in(parts@, area),
        axis == Axis::Columns ==> side_by_side_in(parts@, area),
        in_order_within(parts@[0], parts@[1], area, axis),
        has_room_for(area, axis, first, second) ==> extent_of(parts@[0], axis) == first->Length_0,
{
    let direction = match axis {
        Axis::Rows => Direction::Vertical,
        Axis::Columns => Direction::Horizontal,
    };
    let constraints = [first, second].map(|share| match share {
        Share::Length(n) => Constraint::Length(n),
        Share::Min(n) => Constraint::Min(n),
        Share::Percentage(n) => Constraint::Percentage(n),
    });
    let rect = Rect { x: area.x, y: area.y, width: area.width, height: area.height };
    let parts = Layout::default().direction(direction).constraints(constraints).split(rect);
    parts.iter().map(|r| Area { x: r.x, y: r.y, width: r.width, height: r.height }).collect()
}

/// The three panes of a terminal of the given size.
#[derive(Clone, Copy, Debug, PartialEq, Eq, Structural)]
pub struct Panes {
    pub bar: Area,
    pub list: Area,
    pub detail: Area,
}

/// What the bar and the body below it ask for, top to bottom.
pub fn row_shares() -> (shares: (Share, Share))
    ensures
        shares == (Share::Length(BAR_HEIGHT), Share::Min(BODY_MIN_HEIGHT)),
{
    (Share::Length(BAR_HEIGHT), Share::Min(BODY_MIN_HEIGHT))
}

/// What the list and the detail pane ask for, left to right.
pub fn column_shares() -> (shares: (Share, Share))
    ensures
        shares == (Share::Percentage(LIST_PERCENT), Share::Percentage(DETAIL_PERCENT)),
{
    (Share::Percentage(LIST_PERCENT), Share::Percentage(DETAIL_PERCENT))
}

/// The panes are laid out in `area`: the bar across the top in the columns
/// of the terminal, below it and not overlapping it the list and the detail
/// in one range of rows, the list left of the detail, all inside the
/// terminal. The bar has its full height wherever the terminal has a row
/// left for the panes below it.
pub open spec fn laid_out_in(panes: Panes, area: Area) -> bool {
    &&& panes.bar.x == area.x
    &&& panes.bar.width == area.width
    &&& panes.list.y == panes.detail.y
    &&& panes.list.height == panes.detail.height
    &&& panes.bar.y >= area.y
    &&& panes.bar.y + panes.bar.height <= panes.list.y
    &&& panes.list.y + panes.list.height <= area.y + area.height
    &&& panes.list.x >= area.x
    &&& panes.list.x + panes.list.width <= panes.detail.x
    &&& panes.detail.x + panes.detail.width <= area.x + area.width
    &&& area.height >= BAR_HEIGHT + BODY_MIN_HEIGHT && area.y + area.height <= u16::MAX
        ==> panes.bar.height == BAR_HEIGHT
}

/// Divides the terminal into its three panes.
pub fn layout(area: Area) -> (panes: Panes)
    ensures
        laid_out_in(panes, area),
{
    let rows_ask = row_shares();
    let rows = split(area, Axis::Rows, rows_ask.0, rows_ask.1);
    let body = rows[1];
    let columns_ask = column_shares();
    let columns = split(body, Axis::Columns, columns_ask.0, columns_ask.1);
    Panes { bar: rows[0], list: columns[0], detail: columns[1] }
}

/// The colour that marks a status.
pub open spec fn tint_of(status: Status) -> Tint {
    match status {
        Status::Todo => Tint::White,
        Status::Done => Tint::Green,
        Status::Blocked => Tint::Red,
    }
}

/// Picks the colour of a status.
pub fn tint(status: Status) -> (tint: Tint)
    ensures
        tint == tint_of(status),
{
    match status {
        Status::Todo => Tint::White,
        Status::Done => Tint::Green,
        Status::Blocked => Tint::Red,
    }
}

/// The word for a status.
pub open spec fn status_word(status: Status) -> Seq<char> {
    match status {
        Status::Todo => "Todo"@,
        Status::Done => "Done"@,
        Status::Blocked => "Blocked"@,
    }
}

/// The word for a status, as text.
pub fn status_name(status: Status) -> (name: &'static str)
    ensures
        name@ == status_word(status),
{
    match status {
        Status::Todo => "Todo",
        Status::Done => "Done",
        Status::Blocked => "Blocked",
    }
}

/// A list entry: identifier in brackets, the status word in a column of
/// eight, the description.
pub open spec fn row_text_of(task: Task) -> Seq<char> {
    "["@ + decimal(task.id as nat) + "] "@ + padded(status_word(task.status), 8) + " "@
        + task.description@
}

/// Writes the list entry of a task.
pub fn row_text(task: &Task) -> (text: String)
    ensures
        text@ == row_text_of(*task),
{
    let mut text = String::from_str("[");
    text.append(decimal_text(task.id).as_str());
    text.append("] ");
    text.append(pad_right(status_name(task.status), 8).as_str());
    text.append(" ");
    text.append(task.description.as_str());
    text
}

/// The mark that stands for a missing deadline.
pub open spec fn no_deadline() -> Seq<char> {
    "—"@
}

/// A deadline as the detail pane shows it.
pub open spec fn deadline_text_of(deadline: Option<Date>) -> Seq<char> {
    match deadline {
        Some(date) => date_text(date@.0, date@.1, date@.2),
        None => no_deadline(),
    }
}

/// Writes a deadline for the detail pane.
pub fn deadline_text(deadline: &Option<Date>) -> (text: String)
    ensures
        text@ == deadline_text_of(*deadline),
{
    match deadline {
        Some(date) => date.text(),
        None => String::from_str("—"),
    }
}

/// The detail pane: every field of the task, one per line, the description
/// last under its own heading.
pub open spec fn detail_text_of(task: Task) -> Seq<char> {
    "ID       : "@ + decimal(task.id as nat) + "\nStatus   : "@ + status_word(task.status)
        + "\nPriority : "@ + task.priority@ + "\nDeadline : "@ + deadline_text_of(task.deadline)
        + "\nOwner    : "@ + task.owner@ + "\n\nDescription:\n"@ + task.description@
}

/// Writes the detail pane of a task.
pub fn detail_text(task: &Task) -> (text: String)
    ensures
        text@ == detail_text_of(*task),
{
    let mut text = String::from_str("ID       : ");
    text.append(decimal_text(task.id).as_str());
    text.append("\nStatus   : ");
    text.append(status_name(task.status));
    text.append("\nPriority : ");
    text.append(task.priority.as_str());
    text.append("\nDeadline : ");
    text.append(deadline_text(&task.deadline).as_str());
    text.append("\nOwner    : ");
    text.append(task.owner.as_str());
    text.append("\n\nDescription:\n");
    text.append(task.description.as_str());
    text
}

/// The line of keys that the bar shows in normal mode.
pub open spec fn help_line() -> Seq<char> {
    "Press / to search | ↑↓ Enter b q"@
}

/// The top bar: the live search prompt in search mode, the help line
/// otherwise.
pub open spec fn bar_text_of(session: SessionView) -> Seq<char> {
    match session.mode {
        Mode::Search => "🔍 /"@ + session.search,
        Mode::Normal => help_line(),
    }
}

/// Writes the top bar.
pub fn bar_text(session: &Session) -> (text: String)
    ensures
        text@ == bar_text_of(session@),
{
    match session.mode {
        Mode::Search => {
            let mut text = String::from_str("🔍 /");
            text.append(session.search.as_str());
            text
        },
        Mode::Normal => String::from_str("Press / to search | ↑↓ Enter b q"),
    }
}

/// Every entry of the view is a position of the list.
pub open spec fn view_in_range(view: Seq<usize>, len: nat) -> bool {
    forall|i: int| 0 <= i < view.len() ==> view[i] < len
}

/// `screen` shows `tasks` through `view` for `session`: one row per entry of
/// the view, in order, each with its task's text and colour; the selection
/// highlighted; the selected task in the detail pane, or no detail where the
/// selection points at nothing.
pub open spec fn shows(screen: Screen, tasks: Seq<Task>, view: Seq<usize>, session: SessionView) -> bool {
    &&& screen.bar@ == bar_text_of(session)
    &&& screen.rows@.len() == view.len()
    &&& forall|i: int|
        0 <= i < view.len() ==> (#[trigger] screen.rows@[i]).text@ == row_text_of(
            tasks[view[i] as int],
        ) && screen.rows@[i].tint == tint_of(tasks[view[i] as int].status)
    &&& screen.highlighted == session.selected
    &&& match screen.detail {
        Some(text) => session.selected < view.len() && text@ == detail_text_of(
            tasks[view[session.selected as int] as int],
        ),
        None => session.selected >= view.len(),
    }
}

/// Lays out and fills the screen for the given view.
pub fn compose(tasks: &Vec<Task>, view: &Vec<usize>, session: &Session, area: Area) -> (screen:
    Screen)
    requires
        view_in_range(view@, tasks@.len()),
    ensures
        shows(screen, tasks@, view@, session@),
        laid_out_in(
            Panes { bar: screen.bar_area, list: screen.list_area, detail: screen.detail_area },
            area,
        ),
{
    let panes = layout(area);
    let mut rows: Vec<Row> = Vec::new();
    let mut i: usize = 0;
    while i < view.len()
        invariant
            i <= view.len(),
            view_in_range(view@, tasks@.len()),
            rows@.len() == i,
            forall|k: int|
                0 <= k < i ==> (#[trigger] rows@[k]).text@ == row_text_of(tasks@[view@[k] as int])
                    && rows@[k].tint == tint_of(tasks@[view@[k] as int].status),
        decreases view.len() - i,
    {
        let task = &tasks[view[i]];
        rows.push(Row { text: row_text(task), tint: tint(task.status) });
        i = i + 1;
    }
    let detail = if session.selected < view.len() {
        Some(detail_text(&tasks[view[session.selected]]))
    } else {
        None
    };
    Screen {
        bar_area: panes.bar,
        list_area: panes.list,
        detail_area: panes.detail,
        bar: bar_text(session),
        rows,
        highlighted: session.selected,
        detail,
    }
}

/// Draws up the screen as the user is to see it now: the view is computed
/// afresh and the selection brought back into it first.
pub fn render(session: &mut Session, tasks: &Vec<Task>, area: Area) -> (screen: Screen)
    ensures
        final(session)@ == (SessionView {
            selected: crate::selection::clamped(
                old(session)@.selected,
                crate::filter::filtered(tasks@, old(session)@.search).len(),
            ),
            ..old(session)@
        }),
        shows(
            screen,
            tasks@,
            crate::filter::filtered(tasks@, old(session)@.search),
            final(session)@,
        ),
        screen.detail is Some <==> crate::filter::filtered(tasks@, old(session)@.search).len() > 0,
        laid_out_in(
            Panes { bar: screen.bar_area, list: screen.list_area, detail: screen.detail_area },
            area,
        ),
{
    let view = session.settle(tasks);
    compose(tasks, &view, session, area)
}

} // verus!
