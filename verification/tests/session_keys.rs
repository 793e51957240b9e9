use pmcli::filter::filter;
use pmcli::model::find_by_id;
use pmcli::model::Status;
use pmcli::model::Task;
use pmcli::model::Toggle;
use pmcli::session::Effect;
use pmcli::session::Key;
use pmcli::session::Mode;
use pmcli::session::toggle_by_id;
use pmcli::session::Session;

fn task(id: u32, description: &str, status: Status) -> Task {
    Task {
        id,
        description: description.to_string(),
        status,
        priority: "medium".to_string(),
        deadline: None,
        owner: "ana".to_string(),
    }
}

fn two_tasks() -> Vec<Task> {
    vec![task(1, "buy milk", Status::Todo), task(2, "fix bug", Status::Todo)]
}

fn type_text(session: &mut Session, tasks: &mut Vec<Task>, text: &str) {
    for c in text.chars() {
        assert_eq!(session.handle_key(tasks, Key::Char(c)), Effect::Nothing);
    }
}

#[test]
fn typing_bug_narrows_the_view_to_the_second_task() {
    let mut tasks = two_tasks();
    let mut session = Session::new();
    session.selected = 1;
    assert_eq!(session.handle_key(&mut tasks, Key::Char('/')), Effect::Nothing);
    assert_eq!(session.mode, Mode::Search);
    type_text(&mut session, &mut tasks, "bug");
    assert_eq!(session.search, "bug");
    assert_eq!(session.selected, 0);
    let view = session.settle(&tasks);
    assert_eq!(view, vec![1]);
    assert_eq!(tasks[view[0]].id, 2);
    assert_eq!(session.selected, 0);
}

#[test]
fn enter_on_the_filtered_task_marks_it_done_and_asks_to_save() {
    let mut tasks = two_tasks();
    let mut session = Session::new();
    let view = filter(&tasks, "bug");
    assert_eq!(view, vec![1]);
    let effect = session.apply(&mut tasks, &view, Key::Enter);
    assert_eq!(effect, Effect::Persist);
    assert_eq!(tasks.len(), 2);
    assert_eq!(tasks[0].id, 1);
    assert_eq!(tasks[0].status, Status::Todo);
    assert_eq!(tasks[0].description, "buy milk");
    assert_eq!(tasks[1].id, 2);
    assert_eq!(tasks[1].status, Status::Done);
    assert_eq!(tasks[1].description, "fix bug");
}

#[test]
fn b_blocks_a_todo_task_and_b_again_unblocks_it() {
    let mut tasks = two_tasks();
    let mut session = Session::new();
    assert_eq!(session.handle_key(&mut tasks, Key::Char('b')), Effect::Persist);
    assert_eq!(tasks[0].status, Status::Blocked);
    assert_eq!(tasks[1].status, Status::Todo);
    assert_eq!(session.handle_key(&mut tasks, Key::Char('b')), Effect::Persist);
    assert_eq!(tasks[0].status, Status::Todo);
}

#[test]
fn enter_and_b_do_nothing_on_an_empty_view() {
    let mut tasks = two_tasks();
    let mut session = Session::new();
    let view = filter(&tasks, "zzz");
    assert!(view.is_empty());
    assert_eq!(session.apply(&mut tasks, &view, Key::Enter), Effect::Nothing);
    assert_eq!(session.apply(&mut tasks, &view, Key::Char('b')), Effect::Nothing);
    assert_eq!(tasks[0].status, Status::Todo);
    assert_eq!(tasks[1].status, Status::Todo);
    let mut none: Vec<Task> = Vec::new();
    assert_eq!(session.handle_key(&mut none, Key::Enter), Effect::Nothing);
    assert_eq!(session.handle_key(&mut none, Key::Char('b')), Effect::Nothing);
    assert!(none.is_empty());
}

#[test]
fn a_new_session_is_in_normal_mode_with_nothing_typed() {
    let session = Session::new();
    assert_eq!(session.selected, 0);
    assert_eq!(session.search, "");
    assert_eq!(session.mode, Mode::Normal);
}

#[test]
fn q_quits_in_normal_mode_only() {
    let mut tasks = two_tasks();
    let mut session = Session::new();
    assert_eq!(session.handle_key(&mut tasks, Key::Char('q')), Effect::Quit);
    assert_eq!(session.handle_key(&mut tasks, Key::Char('/')), Effect::Nothing);
    assert_eq!(session.handle_key(&mut tasks, Key::Char('q')), Effect::Nothing);
    assert_eq!(session.search, "q");
    assert_eq!(session.mode, Mode::Search);
}

#[test]
fn slash_enters_search_mode_with_an_empty_string_and_keeps_the_selection() {
    let mut tasks = two_tasks();
    let mut session = Session { selected: 1, search: "old".to_string(), mode: Mode::Normal };
    let view = vec![0, 1];
    assert_eq!(session.apply(&mut tasks, &view, Key::Char('/')), Effect::Nothing);
    assert_eq!(session.mode, Mode::Search);
    assert_eq!(session.search, "");
    assert_eq!(session.selected, 1);
}

#[test]
fn arrows_move_the_selection_within_the_view() {
    let mut tasks = vec![
        task(1, "a", Status::Todo),
        task(2, "b", Status::Todo),
        task(3, "c", Status::Todo),
    ];
    let mut session = Session::new();
    assert_eq!(session.handle_key(&mut tasks, Key::Up), Effect::Nothing);
    assert_eq!(session.selected, 0);
    assert_eq!(session.handle_key(&mut tasks, Key::Down), Effect::Nothing);
    assert_eq!(session.selected, 1);
    assert_eq!(session.handle_key(&mut tasks, Key::Down), Effect::Nothing);
    assert_eq!(session.selected, 2);
    assert_eq!(session.handle_key(&mut tasks, Key::Down), Effect::Nothing);
    assert_eq!(session.selected, 2);
    assert_eq!(session.handle_key(&mut tasks, Key::Up), Effect::Nothing);
    assert_eq!(session.selected, 1);
}

#[test]
fn arrows_and_enter_mean_nothing_in_search_mode() {
    let mut tasks = two_tasks();
    let mut session = Session { selected: 1, search: String::new(), mode: Mode::Search };
    for key in [Key::Up, Key::Down, Key::Enter, Key::Other] {
        assert_eq!(session.handle_key(&mut tasks, key), Effect::Nothing);
        assert_eq!(session.selected, 1);
        assert_eq!(session.search, "");
        assert_eq!(session.mode, Mode::Search);
    }
    assert_eq!(tasks[0].status, Status::Todo);
    assert_eq!(tasks[1].status, Status::Todo);
}

#[test]
fn typed_characters_are_lowered_and_reset_the_selection() {
    let mut tasks = two_tasks();
    let mut session = Session { selected: 1, search: String::new(), mode: Mode::Search };
    assert_eq!(session.handle_key(&mut tasks, Key::Char('B')), Effect::Nothing);
    assert_eq!(session.search, "b");
    assert_eq!(session.selected, 0);
    session.selected = 1;
    assert_eq!(session.handle_key(&mut tasks, Key::Char('U')), Effect::Nothing);
    assert_eq!(session.handle_key(&mut tasks, Key::Char('9')), Effect::Nothing);
    assert_eq!(session.handle_key(&mut tasks, Key::Char('/')), Effect::Nothing);
    assert_eq!(session.handle_key(&mut tasks, Key::Char('É')), Effect::Nothing);
    assert_eq!(session.search, "bu9/É");
    assert_eq!(session.selected, 0);
    assert_eq!(tasks[0].status, Status::Todo);
}

#[test]
fn backspace_removes_the_last_character_and_resets_the_selection() {
    let mut tasks = two_tasks();
    let mut session = Session { selected: 1, search: "bué".to_string(), mode: Mode::Search };
    assert_eq!(session.handle_key(&mut tasks, Key::Backspace), Effect::Nothing);
    assert_eq!(session.search, "bu");
    assert_eq!(session.selected, 0);
    assert_eq!(session.handle_key(&mut tasks, Key::Backspace), Effect::Nothing);
    assert_eq!(session.handle_key(&mut tasks, Key::Backspace), Effect::Nothing);
    assert_eq!(session.search, "");
    session.selected = 1;
    assert_eq!(session.handle_key(&mut tasks, Key::Backspace), Effect::Nothing);
    assert_eq!(session.search, "");
    assert_eq!(session.selected, 0);
    assert_eq!(session.mode, Mode::Search);
}

#[test]
fn backspace_and_escape_mean_nothing_in_normal_mode() {
    let mut tasks = two_tasks();
    let mut session = Session::new();
    session.selected = 1;
    for key in [Key::Backspace, Key::Esc, Key::Other, Key::Char('x')] {
        assert_eq!(session.handle_key(&mut tasks, key), Effect::Nothing);
        assert_eq!(session.selected, 1);
        assert_eq!(session.search, "");
        assert_eq!(session.mode, Mode::Normal);
    }
}

#[test]
fn escape_leaves_search_mode_and_clears_the_search() {
    let mut tasks = two_tasks();
    let mut session = Session { selected: 0, search: "bug".to_string(), mode: Mode::Search };
    assert_eq!(session.handle_key(&mut tasks, Key::Esc), Effect::Nothing);
    assert_eq!(session.mode, Mode::Normal);
    assert_eq!(session.search, "");
    assert_eq!(session.selected, 0);
    assert_eq!(session.settle(&tasks), vec![0, 1]);
}

#[test]
fn enter_twice_on_a_todo_task_returns_it_to_todo() {
    let mut tasks = two_tasks();
    let mut session = Session::new();
    assert_eq!(session.handle_key(&mut tasks, Key::Enter), Effect::Persist);
    assert_eq!(tasks[0].status, Status::Done);
    assert_eq!(session.handle_key(&mut tasks, Key::Enter), Effect::Persist);
    assert_eq!(tasks[0].status, Status::Todo);
}

#[test]
fn enter_leaves_a_blocked_task_blocked() {
    let mut tasks = vec![task(1, "wait", Status::Blocked)];
    let mut session = Session::new();
    assert_eq!(session.handle_key(&mut tasks, Key::Enter), Effect::Persist);
    assert_eq!(tasks[0].status, Status::Blocked);
}

#[test]
fn b_on_a_done_task_blocks_it_and_b_again_makes_it_todo() {
    let mut tasks = vec![task(1, "ship", Status::Done)];
    let mut session = Session::new();
    assert_eq!(session.handle_key(&mut tasks, Key::Char('b')), Effect::Persist);
    assert_eq!(tasks[0].status, Status::Blocked);
    assert_eq!(session.handle_key(&mut tasks, Key::Char('b')), Effect::Persist);
    assert_eq!(tasks[0].status, Status::Todo);
}

#[test]
fn status_transition_table() {
    assert_eq!(Status::Todo.toggled(Toggle::Done), Status::Done);
    assert_eq!(Status::Done.toggled(Toggle::Done), Status::Todo);
    assert_eq!(Status::Blocked.toggled(Toggle::Done), Status::Blocked);
    assert_eq!(Status::Todo.toggled(Toggle::Blocked), Status::Blocked);
    assert_eq!(Status::Done.toggled(Toggle::Blocked), Status::Blocked);
    assert_eq!(Status::Blocked.toggled(Toggle::Blocked), Status::Todo);
}

#[test]
fn a_toggle_goes_to_the_selected_task_of_the_view_not_of_the_list() {
    let mut tasks = vec![
        task(10, "buy milk", Status::Todo),
        task(20, "fix bug", Status::Todo),
        task(30, "big bug", Status::Todo),
    ];
    let mut session = Session { selected: 1, search: "bug".to_string(), mode: Mode::Normal };
    let view = filter(&tasks, "bug");
    assert_eq!(view, vec![1, 2]);
    assert_eq!(session.apply(&mut tasks, &view, Key::Enter), Effect::Persist);
    assert_eq!(tasks[0].status, Status::Todo);
    assert_eq!(tasks[1].status, Status::Todo);
    assert_eq!(tasks[2].status, Status::Done);
}

#[test]
fn a_toggle_finds_the_task_by_identifier_first_match_first() {
    let mut tasks = vec![task(7, "one", Status::Todo), task(7, "two", Status::Todo)];
    let mut session = Session::new();
    session.selected = 1;
    assert_eq!(session.handle_key(&mut tasks, Key::Enter), Effect::Persist);
    assert_eq!(tasks[0].status, Status::Done);
    assert_eq!(tasks[1].status, Status::Todo);
}

#[test]
fn a_key_first_brings_the_selection_back_into_the_view() {
    let mut tasks = two_tasks();
    let mut session = Session::new();
    session.selected = 9;
    assert_eq!(session.handle_key(&mut tasks, Key::Enter), Effect::Persist);
    assert_eq!(session.selected, 1);
    assert_eq!(tasks[0].status, Status::Todo);
    assert_eq!(tasks[1].status, Status::Done);
}

#[test]
fn settle_clamps_after_the_view_has_shrunk() {
    let tasks = vec![
        task(1, "alpha", Status::Todo),
        task(2, "beta", Status::Todo),
        task(3, "gamma bug", Status::Todo),
        task(4, "delta bug", Status::Todo),
    ];
    let mut session = Session { selected: 3, search: "bug".to_string(), mode: Mode::Search };
    let view = session.settle(&tasks);
    assert_eq!(view, vec![2, 3]);
    assert_eq!(session.selected, 1);
    session.search = "nothing".to_string();
    session.selected = 3;
    let view = session.settle(&tasks);
    assert!(view.is_empty());
    assert_eq!(session.selected, 3);
}

#[test]
fn the_selection_stays_in_the_view_along_a_run_of_keys() {
    let mut tasks = vec![
        task(1, "buy milk", Status::Todo),
        task(2, "fix bug", Status::Todo),
        task(3, "big bug", Status::Done),
    ];
    let mut session = Session::new();
    let keys = [
        Key::Down, Key::Down, Key::Down, Key::Char('/'), Key::Char('b'), Key::Char('u'),
        Key::Char('g'), Key::Up, Key::Esc, Key::Down, Key::Down, Key::Enter, Key::Char('b'),
        Key::Char('/'), Key::Char('z'), Key::Backspace, Key::Esc, Key::Up, Key::Other,
    ];
    for key in keys {
        session.handle_key(&mut tasks, key);
        let view = filter(&tasks, &session.search);
        assert!(view.is_empty() || session.selected < view.len());
        assert!(session.mode == Mode::Search || session.search.is_empty());
    }
}

#[test]
fn find_by_id_gives_the_first_position() {
    let tasks = vec![
        task(4, "a", Status::Todo),
        task(2, "b", Status::Todo),
        task(4, "c", Status::Todo),
    ];
    assert_eq!(find_by_id(&tasks, 4), Some(0));
    assert_eq!(find_by_id(&tasks, 2), Some(1));
    assert_eq!(find_by_id(&tasks, 5), None);
}

#[test]
fn toggle_by_id_reports_a_missing_task() {
    let mut tasks = two_tasks();
    assert!(!toggle_by_id(&mut tasks, 3, Toggle::Done));
    assert_eq!(tasks[0].status, Status::Todo);
    assert_eq!(tasks[1].status, Status::Todo);
    assert!(toggle_by_id(&mut tasks, 2, Toggle::Blocked));
    assert_eq!(tasks[1].status, Status::Blocked);
}
