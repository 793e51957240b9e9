//! The interactive session: its state, the keys it understands, and what
//! each key does in each input mode.

use vstd::prelude::*;

use crate::filter::filter;
use crate::filter::filtered;
use crate::filter::lemma_filtered_is_view;
use crate::filter::matching_below;
use crate::model::Status;
use crate::model::Task;
use crate::model::Toggle;
use crate::model::find_by_id;
use crate::model::is_first_with_id;
use crate::model::lemma_id_has_position;
use crate::model::position_of;
use crate::model::unique_ids;
use crate::selection::clamp;
use crate::selection::clamped;
use crate::selection::in_view;
use crate::selection::move_down;
use crate::selection::move_up;
use crate::selection::moved_down;
use crate::selection::moved_up;
use crate::text::ascii_lower;
use crate::text::lower_ascii;

verus! {

/// How keystrokes are read.
#[derive(Clone, Copy, Debug, PartialEq, Eq, Structural)]
pub enum Mode {
    /// Keys navigate and command.
    Normal,
    /// Keys edit the search string.
    Search,
}

/// A key press, as far as the session tells keys apart.
#[derive(Clone, Copy, Debug, PartialEq, Eq, Structural)]
pub enum Key {
    Char(char),
    Up,
    Down,
    Enter,
    Backspace,
    Esc,
    /// Any key without a meaning here.
    Other,
}

/// What the caller owes the session after a key.
#[derive(Clone, Copy, Debug, PartialEq, Eq, Structural)]
pub enum Effect {
    /// Nothing beyond the next redraw.
    Nothing,
    /// The task list changed: write the whole list back now.
    Persist,
    /// End the session.
    Quit,
}

/// The state of one session.
#[derive(Debug)]
pub struct Session {
    /// Index into the current filtered view.
    pub selected: usize,
    /// The live search string; empty shows every task.
    pub search: String,
    pub mode: Mode,
}

/// A session as contracts see it.
pub ghost struct SessionView {
    pub selected: usize,
    pub search: Seq<char>,
    pub mode: Mode,
}

impl View for Session {
    type V = SessionView;

    open spec fn view(&self) -> SessionView {
        SessionView { selected: self.selected, search: self.search@, mode: self.mode }
    }
}

/// A session, a task list and an effect: what a key leaves behind.
pub ghost struct Outcome {
    pub session: SessionView,
    pub tasks: Seq<Task>,
    pub effect: Effect,
}

/// The list after `toggle` has been applied to the first task with
/// identifier `id`; the list itself where there is no such task.
pub open spec fn with_toggle(tasks: Seq<Task>, id: u32, toggle: Toggle) -> Seq<Task> {
    match position_of(tasks, id) {
        Some(at) => tasks.update(at, Task { status: tasks[at].status.after(toggle), ..tasks[at] }),
        None => tasks,
    }
}

/// The identifier of the task that the selection points at through `view`.
pub open spec fn selected_id(tasks: Seq<Task>, view: Seq<usize>, selected: usize) -> Option<u32> {
    if selected < view.len() && view[selected as int] < tasks.len() {
        Some(tasks[view[selected as int] as int].id)
    } else {
        None
    }
}

/// The initial state: normal mode, no search, the first entry selected.
pub open spec fn initial() -> SessionView {
    SessionView { selected: 0, search: Seq::empty(), mode: Mode::Normal }
}

impl SessionView {
    /// A search string is only ever held in search mode: entering the mode
    /// starts an empty one, leaving it clears it.
    pub open spec fn consistent(self) -> bool {
        self.mode == Mode::Normal ==> self.search.len() == 0
    }
}

/// What a toggle key does: the selected task, found again in the full list by
/// its identifier, changes status and the list is to be written back. With
/// nothing selected nothing happens.
pub open spec fn after_toggle(
    session: SessionView,
    tasks: Seq<Task>,
    view: Seq<usize>,
    toggle: Toggle,
) -> Outcome {
    match selected_id(tasks, view, session.selected) {
        Some(id) => Outcome {
            session,
            tasks: with_toggle(tasks, id, toggle),
            effect: Effect::Persist,
        },
        None => Outcome { session, tasks, effect: Effect::Nothing },
    }
}

/// The transition table. `view` is the filtered view that the user sees;
/// the selection is first brought back into it.
pub open spec fn after_key(
    session: SessionView,
    tasks: Seq<Task>,
    view: Seq<usize>,
    key: Key,
) -> Outcome {
    let here = SessionView { selected: clamped(session.selected, view.len()), ..session };
    let stay = Outcome { session: here, tasks, effect: Effect::Nothing };
    match here.mode {
        Mode::Normal => match key {
            Key::Char(c) => if c == 'q' {
                Outcome { effect: Effect::Quit, ..stay }
            } else if c == '/' {
                Outcome {
                    session: SessionView { mode: Mode::Search, search: Seq::empty(), ..here },
                    ..stay
                }
            } else if c == 'b' {
                after_toggle(here, tasks, view, Toggle::Blocked)
            } else {
                stay
            },
            Key::Up => Outcome {
                session: SessionView { selected: moved_up(here.selected), ..here },
                ..stay
            },
            Key::Down => Outcome {
                session: SessionView { selected: moved_down(here.selected, view.len()), ..here },
                ..stay
            },
            Key::Enter => after_toggle(here, tasks, view, Toggle::Done),
            _ => stay,
        },
        Mode::Search => match key {
            Key::Char(c) => Outcome {
                session: SessionView {
                    search: here.search.push(ascii_lower(c)),
                    selected: 0,
                    ..here
                },
                ..stay
            },
            Key::Backspace => Outcome {
                session: SessionView {
                    search: if here.search.len() > 0 {
                        here.search.drop_last()
                    } else {
                        here.search
                    },
                    selected: 0,
                    ..here
                },
                ..stay
            },
            Key::Esc => Outcome {
                session: SessionView { mode: Mode::Normal, search: Seq::empty(), selected: 0 },
                ..stay
            },
            _ => stay,
        },
    }
}

/// Applies `toggle` to the first task with identifier `id` and says whether
/// there was one.
pub fn toggle_by_id(tasks: &mut Vec<Task>, id: u32, toggle: Toggle) -> (found: bool)
    ensures
        found == position_of(old(tasks)@, id).is_some(),
        final(tasks)@ == with_toggle(old(tasks)@, id, toggle),
{
    match find_by_id(tasks, id) {
        Some(at) => {
            let next = tasks[at].status.toggled(toggle);
            tasks[at].status = next;
            true
        },
        None => false,
    }
}

impl Session {
    /// A fresh session.
    pub fn new() -> (session: Session)
        ensures
            session@ == initial(),
    {
        Session { selected: 0, search: String::new(), mode: Mode::Normal }
    }

    /// Recomputes the filtered view and brings the selection back into it.
    pub fn settle(&mut self, tasks: &Vec<Task>) -> (view: Vec<usize>)
        ensures
            view@ == filtered(tasks@, old(self)@.search),
            crate::filter::is_view_of(view@, tasks@, old(self)@.search),
            final(self)@ == (SessionView {
                selected: clamped(old(self)@.selected, view@.len()),
                ..old(self)@
            }),
            in_view(final(self)@.selected, view@.len()),
    {
        let view = filter(tasks, self.search.as_str());
        self.selected = clamp(self.selected, view.len());
        view
    }

    fn toggle_selected(&mut self, tasks: &mut Vec<Task>, view: &Vec<usize>, toggle: Toggle) -> (effect:
        Effect)
        ensures
            final(self)@ == old(self)@,
            final(tasks)@ == after_toggle(old(self)@, old(tasks)@, view@, toggle).tasks,
            effect == after_toggle(old(self)@, old(tasks)@, view@, toggle).effect,
    {
        if self.selected < view.len() && view[self.selected] < tasks.len() {
            let id = tasks[view[self.selected]].id;
            let ghost at = view@[self.selected as int] as int;
            proof {
                lemma_id_has_position(tasks@, at);
            }
            toggle_by_id(tasks, id, toggle);
            Effect::Persist
        } else {
            Effect::Nothing
        }
    }

    /// Handles one key against the view that the user sees.
    pub fn apply(&mut self, tasks: &mut Vec<Task>, view: &Vec<usize>, key: Key) -> (effect: Effect)
        ensures
            final(self)@ == after_key(old(self)@, old(tasks)@, view@, key).session,
            final(tasks)@ == after_key(old(self)@, old(tasks)@, view@, key).tasks,
            effect == after_key(old(self)@, old(tasks)@, view@, key).effect,
    {
        self.selected = clamp(self.selected, view.len());
        match self.mode {
            Mode::Normal => match key {
                Key::Char(c) => {
                    if c == 'q' {
                        Effect::Quit
                    } else if c == '/' {
                        self.mode = Mode::Search;
                        self.search = String::new();
                        Effect::Nothing
                    } else if c == 'b' {
                        self.toggle_selected(tasks, view, Toggle::Blocked)
                    } else {
                        Effect::Nothing
                    }
                },
                Key::Up => {
                    self.selected = move_up(self.selected);
                    Effect::Nothing
                },
                Key::Down => {
                    self.selected = move_down(self.selected, view.len());
                    Effect::Nothing
                },
                Key::Enter => self.toggle_selected(tasks, view, Toggle::Done),
                _ => Effect::Nothing,
            },
            Mode::Search => match key {
                Key::Char(c) => {
                    self.search.push(lower_ascii(c));
                    self.selected = 0;
                    Effect::Nothing
                },
                Key::Backspace => {
                    self.search.pop();
                    self.selected = 0;
                    Effect::Nothing
                },
                Key::Esc => {
                    self.mode = Mode::Normal;
                    self.search = String::new();
                    self.selected = 0;
                    Effect::Nothing
                },
                _ => Effect::Nothing,
            },
        }
    }

    /// Handles one key: the view is computed from the task list and the
    /// search string as they stand, then the key is applied to it.
    pub fn handle_key(&mut self, tasks: &mut Vec<Task>, key: Key) -> (effect: Effect)
        ensures
            final(self)@ == after_key(
                old(self)@,
                old(tasks)@,
                filtered(old(tasks)@, old(self)@.search),
                key,
            ).session,
            final(tasks)@ == after_key(
                old(self)@,
                old(tasks)@,
                filtered(old(tasks)@, old(self)@.search),
                key,
            ).tasks,
            effect == after_key(
                old(self)@,
                old(tasks)@,
                filtered(old(tasks)@, old(self)@.search),
                key,
            ).effect,
            old(self)@.consistent() ==> final(self)@.consistent() && in_view(
                final(self)@.selected,
                filtered(final(tasks)@, final(self)@.search).len(),
            ),
    {
        let view = filter(tasks, self.search.as_str());
        proof {
            assert(tasks.len() <= usize::MAX);
            if self@.consistent() {
                lemma_selection_stays_in_view(self@, tasks@, key);
            }
        }
        self.apply(tasks, &view, key)
    }
}

/// A toggle changes no description, so the same positions match below `n`.
proof fn lemma_toggle_keeps_matches(
    tasks: Seq<Task>,
    id: u32,
    toggle: Toggle,
    search: Seq<char>,
    n: nat,
)
    requires
        n <= tasks.len(),
    ensures
        matching_below(with_toggle(tasks, id, toggle), search, n) == matching_below(
            tasks,
            search,
            n,
        ),
    decreases n,
{
    if n > 0 {
        lemma_toggle_keeps_matches(tasks, id, toggle, search, (n - 1) as nat);
    }
}

/// A toggle keeps the length of the list and every filtered view of it.
pub proof fn lemma_toggle_keeps_view(tasks: Seq<Task>, id: u32, toggle: Toggle, search: Seq<char>)
    ensures
        with_toggle(tasks, id, toggle).len() == tasks.len(),
        filtered(with_toggle(tasks, id, toggle), search) == filtered(tasks, search),
{
    lemma_toggle_keeps_matches(tasks, id, toggle, search, tasks.len());
}

/// A session starts consistent, and no key makes a consistent session
/// inconsistent.
pub proof fn lemma_consistency_is_kept(
    session: SessionView,
    tasks: Seq<Task>,
    view: Seq<usize>,
    key: Key,
)
    requires
        session.consistent(),
    ensures
        initial().consistent(),
        after_key(session, tasks, view, key).session.consistent(),
{
}

/// Whatever the key, the selection afterwards is a position of the filtered
/// view afterwards, unless that view is empty.
pub proof fn lemma_selection_stays_in_view(session: SessionView, tasks: Seq<Task>, key: Key)
    requires
        session.consistent(),
        tasks.len() <= usize::MAX,
    ensures
        ({
            let next = after_key(session, tasks, filtered(tasks, session.search), key);
            &&& next.session.consistent()
            &&& in_view(next.session.selected, filtered(next.tasks, next.session.search).len())
        }),
{
    let view = filtered(tasks, session.search);
    let here = clamped(session.selected, view.len());
    let next = after_key(session, tasks, view, key);
    lemma_filtered_is_view(tasks, session.search);
    crate::filter::lemma_empty_search_shows_all(tasks);
    match selected_id(tasks, view, here) {
        Some(id) => {
            lemma_toggle_keeps_view(tasks, id, Toggle::Done, session.search);
            lemma_toggle_keeps_view(tasks, id, Toggle::Blocked, session.search);
        },
        None => {},
    }
    if session.search.len() == 0 {
        assert(session.search =~= Seq::empty());
    }
    lemma_filtered_is_view(next.tasks, next.session.search);
}

/// With identifiers unique, a toggle changes the very task that the selection
/// points at, and no other.
pub proof fn lemma_toggle_changes_the_selected_task(
    session: SessionView,
    tasks: Seq<Task>,
    view: Seq<usize>,
    toggle: Toggle,
)
    requires
        unique_ids(tasks),
        selected_id(tasks, view, session.selected) is Some,
    ensures
        ({
            let at = view[session.selected as int] as int;
            after_toggle(session, tasks, view, toggle).tasks == tasks.update(
                at,
                Task { status: tasks[at].status.after(toggle), ..tasks[at] },
            )
        }),
{
    lemma_id_has_position(tasks, view[session.selected as int] as int);
}

/// Only `q` in normal mode ends a session, and only Enter and `b` in normal
/// mode, with a task selected, ask for the list to be written back. No key
/// changes the length of the list or any field of a task but its status.
pub proof fn lemma_effects(session: SessionView, tasks: Seq<Task>, view: Seq<usize>, key: Key)
    ensures
        ({
            let next = after_key(session, tasks, view, key);
            let here = clamped(session.selected, view.len());
            &&& next.effect == Effect::Quit <==> session.mode == Mode::Normal && key == Key::Char(
                'q',
            )
            &&& next.effect == Effect::Persist <==> session.mode == Mode::Normal && (key
                == Key::Enter || key == Key::Char('b')) && selected_id(tasks, view, here) is Some
            &&& next.effect != Effect::Persist ==> next.tasks == tasks
            &&& next.tasks.len() == tasks.len()
            &&& forall|i: int|
                0 <= i < tasks.len() ==> (#[trigger] next.tasks[i]) == (Task {
                    status: next.tasks[i].status,
                    ..tasks[i]
                })
        }),
{
}

/// The toggles on a single status: Enter flips Todo and Done and leaves
/// Blocked alone, so twice Enter changes nothing; `b` flips Todo and Blocked.
pub proof fn lemma_toggle_twice(status: Status)
    ensures
        status.after(Toggle::Done).after(Toggle::Done) == status,
        Status::Blocked.after(Toggle::Done) == Status::Blocked,
        status != Status::Done ==> status.after(Toggle::Blocked).after(Toggle::Blocked) == status,
        Status::Done.after(Toggle::Blocked).after(Toggle::Blocked) == Status::Todo,
{
}

/// The same on a task list: toggling the same identifier twice gives the
/// list back, for Enter always and for `b` unless the task was done.
pub proof fn lemma_toggle_twice_in_list(tasks: Seq<Task>, id: u32, toggle: Toggle)
    requires
        toggle == Toggle::Blocked ==> forall|at: int|
            0 <= at < tasks.len() && tasks[at].id == id ==> tasks[at].status != Status::Done,
    ensures
        with_toggle(with_toggle(tasks, id, toggle), id, toggle) == tasks,
{
    let once = with_toggle(tasks, id, toggle);
    match position_of(tasks, id) {
        Some(at) => {
            assert(is_first_with_id(tasks, id, at));
            assert(is_first_with_id(once, id, at));
            let again = choose|again: int| is_first_with_id(once, id, again);
            assert(again == at) by {
                if again < at {
                    assert(once[again].id != id);
                }
                if at < again {
                    assert(once[at].id != id);
                }
            }
            lemma_toggle_twice(tasks[at].status);
            assert(with_toggle(once, id, toggle) =~= tasks);
        },
        None => {},
    }
}

} // verus!
