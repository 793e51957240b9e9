use pmcli::calendar::Date;
use pmcli::export::csv;
use pmcli::export::csv_line;
use pmcli::listing::listing;
use pmcli::listing::passes;
use pmcli::listing::status_label;
use pmcli::listing::task_line;
use pmcli::model::Config;
use pmcli::model::Instant;
use pmcli::model::Status;
use pmcli::model::Task;
use pmcli::project::creation;
use pmcli::project::fresh_task_file;
use pmcli::project::new_project;
use pmcli::project::note_line;
use pmcli::project::project_line;
use pmcli::project::Creation;
use pmcli::tasklist::add_task;
use pmcli::tasklist::mark_done;
use pmcli::tasklist::next_id;
use pmcli::tasklist::owner_or_unknown;
use pmcli::tasklist::read_deadline;
use pmcli::tasklist::AddError;

fn task(id: u32, description: &str, status: Status, priority: &str, owner: &str) -> Task {
    Task {
        id,
        description: description.to_string(),
        status,
        priority: priority.to_string(),
        deadline: None,
        owner: owner.to_string(),
    }
}

fn sample() -> Vec<Task> {
    vec![
        task(1, "buy milk", Status::Todo, "low", "ana"),
        task(2, "fix bug", Status::Done, "high", "ben"),
        task(3, "wait for review", Status::Blocked, "medium", "ana"),
    ]
}

fn no_settings() -> Config {
    Config { default_priority: None, date_format: None }
}

#[test]
fn the_built_in_settings() {
    let config = pmcli::config::default();
    assert_eq!(config.default_priority, Some("medium".to_string()));
    assert_eq!(config.date_format, Some("%Y-%m-%d".to_string()));
}

#[test]
fn settings_that_were_read_win_over_the_built_in_ones() {
    let read = Config { default_priority: Some("high".to_string()), date_format: None };
    let config = pmcli::config::or_default(Some(read));
    assert_eq!(config.default_priority, Some("high".to_string()));
    assert_eq!(config.date_format, None);
    let config = pmcli::config::or_default(None);
    assert_eq!(config.default_priority, Some("medium".to_string()));
    assert_eq!(config.date_format, Some("%Y-%m-%d".to_string()));
}

#[test]
fn the_date_format_falls_back_to_year_month_day() {
    assert_eq!(pmcli::config::date_format(&no_settings()), "%Y-%m-%d");
    let config = Config { default_priority: None, date_format: Some("%d/%m/%Y".to_string()) };
    assert_eq!(pmcli::config::date_format(&config), "%d/%m/%Y");
}

#[test]
fn the_priority_is_the_given_one_then_the_configured_one_then_medium() {
    let config = Config { default_priority: Some("low".to_string()), date_format: None };
    assert_eq!(pmcli::config::priority(Some("high"), &config), "high");
    assert_eq!(pmcli::config::priority(None, &config), "low");
    assert_eq!(pmcli::config::priority(None, &no_settings()), "medium");
    assert_eq!(pmcli::config::priority(Some(""), &no_settings()), "");
}

#[test]
fn the_owner_is_the_user_or_unknown() {
    assert_eq!(owner_or_unknown(Some("ana".to_string())), "ana");
    assert_eq!(owner_or_unknown(None), "unknown");
}

#[test]
fn the_next_identifier_is_the_length_plus_one() {
    assert_eq!(next_id(&Vec::new()), Some(1));
    assert_eq!(next_id(&sample()), Some(4));
}

#[test]
fn a_deadline_is_read_under_the_given_format() {
    assert_eq!(read_deadline(None, "%Y-%m-%d"), Ok(None));
    assert_eq!(read_deadline(Some("2024-05-17"), "%Y-%m-%d"), Ok(Date::new(2024, 5, 17)));
    assert_eq!(read_deadline(Some("17.05.2024"), "%d.%m.%Y"), Ok(Date::new(2024, 5, 17)));
    assert_eq!(read_deadline(Some("17.05.2024"), "%Y-%m-%d"), Err(AddError::InvalidDate));
    assert_eq!(read_deadline(Some(""), "%Y-%m-%d"), Err(AddError::InvalidDate));
}

#[test]
fn a_new_task_goes_to_the_end_of_the_list() {
    let mut tasks = sample();
    let config = pmcli::config::default();
    let added = add_task(&mut tasks, "write tests", None, Some("2024-12-01"), &config, "cleo");
    assert_eq!(added, Ok(()));
    assert_eq!(tasks.len(), 4);
    assert_eq!(tasks[0].description, "buy milk");
    assert_eq!(tasks[1].status, Status::Done);
    assert_eq!(tasks[2].id, 3);
    let new = &tasks[3];
    assert_eq!(new.id, 4);
    assert_eq!(new.description, "write tests");
    assert_eq!(new.status, Status::Todo);
    assert_eq!(new.priority, "medium");
    assert_eq!(new.deadline, Date::new(2024, 12, 1));
    assert_eq!(new.owner, "cleo");
}

#[test]
fn a_new_task_takes_the_given_priority_and_the_configured_format() {
    let mut tasks: Vec<Task> = Vec::new();
    let config = Config {
        default_priority: Some("low".to_string()),
        date_format: Some("%d/%m/%Y".to_string()),
    };
    assert_eq!(add_task(&mut tasks, "a", Some("high"), Some("01/02/2025"), &config, "u"), Ok(()));
    assert_eq!(add_task(&mut tasks, "b", None, None, &config, "u"), Ok(()));
    assert_eq!(tasks.len(), 2);
    assert_eq!(tasks[0].id, 1);
    assert_eq!(tasks[0].priority, "high");
    assert_eq!(tasks[0].deadline, Date::new(2025, 2, 1));
    assert_eq!(tasks[1].id, 2);
    assert_eq!(tasks[1].priority, "low");
    assert_eq!(tasks[1].deadline, None);
}

#[test]
fn a_deadline_that_is_no_date_adds_nothing() {
    let mut tasks = sample();
    let config = pmcli::config::default();
    let added = add_task(&mut tasks, "x", None, Some("next week"), &config, "ana");
    assert_eq!(added, Err(AddError::InvalidDate));
    assert_eq!(tasks.len(), 3);
    let added = add_task(&mut tasks, "x", None, Some("01/02/2025"), &config, "ana");
    assert_eq!(added, Err(AddError::InvalidDate));
    assert_eq!(tasks.len(), 3);
}

#[test]
fn marking_done_finds_the_task_by_identifier() {
    let mut tasks = sample();
    assert!(mark_done(&mut tasks, 3));
    assert_eq!(tasks[2].status, Status::Done);
    assert_eq!(tasks[0].status, Status::Todo);
    assert!(mark_done(&mut tasks, 2));
    assert_eq!(tasks[1].status, Status::Done);
    assert!(!mark_done(&mut tasks, 9));
    assert_eq!(tasks.len(), 3);
    assert_eq!(tasks[0].status, Status::Todo);
}

#[test]
fn marking_done_takes_the_first_of_two_tasks_with_one_identifier() {
    let mut tasks = vec![
        task(5, "a", Status::Todo, "low", "u"),
        task(5, "b", Status::Blocked, "low", "u"),
    ];
    assert!(mark_done(&mut tasks, 5));
    assert_eq!(tasks[0].status, Status::Done);
    assert_eq!(tasks[1].status, Status::Blocked);
}

#[test]
fn filter_words_of_the_listing() {
    let tasks = sample();
    assert!(passes(&tasks[0], None, "ana"));
    assert!(passes(&tasks[0], Some("mine"), "ana"));
    assert!(!passes(&tasks[1], Some("mine"), "ana"));
    assert!(passes(&tasks[0], Some("todo"), "zed"));
    assert!(!passes(&tasks[1], Some("todo"), "zed"));
    assert!(passes(&tasks[1], Some("done"), "zed"));
    assert!(!passes(&tasks[2], Some("done"), "zed"));
    assert!(passes(&tasks[2], Some("blocked"), "zed"));
    assert!(!passes(&tasks[0], Some("blocked"), "zed"));
    assert!(passes(&tasks[1], Some("everything"), "zed"));
    assert!(passes(&tasks[1], Some("TODO"), "zed"));
    assert!(passes(&tasks[1], Some(""), "zed"));
}

#[test]
fn labels_of_the_listing() {
    assert_eq!(status_label(Status::Todo), "TODO");
    assert_eq!(status_label(Status::Done), "DONE");
    assert_eq!(status_label(Status::Blocked), "BLOCKED");
}

#[test]
fn a_line_of_the_listing() {
    let tasks = sample();
    assert_eq!(task_line(&tasks[0]), "[1] TODO     | low    | buy milk | owner: ana");
    assert_eq!(task_line(&tasks[1]), "[2] DONE     | high   | fix bug | owner: ben");
    assert_eq!(
        task_line(&tasks[2]),
        "[3] BLOCKED  | medium | wait for review | owner: ana"
    );
    assert_eq!(
        task_line(&task(40, "d", Status::Todo, "very high", "é")),
        "[40] TODO     | very high | d | owner: é"
    );
}

#[test]
fn the_listing_keeps_the_order_of_the_list() {
    let tasks = sample();
    assert_eq!(
        listing(&tasks, None, "ana"),
        vec![
            "[1] TODO     | low    | buy milk | owner: ana".to_string(),
            "[2] DONE     | high   | fix bug | owner: ben".to_string(),
            "[3] BLOCKED  | medium | wait for review | owner: ana".to_string(),
        ]
    );
    assert_eq!(
        listing(&tasks, Some("mine"), "ana"),
        vec![
            "[1] TODO     | low    | buy milk | owner: ana".to_string(),
            "[3] BLOCKED  | medium | wait for review | owner: ana".to_string(),
        ]
    );
    assert_eq!(
        listing(&tasks, Some("done"), "ana"),
        vec!["[2] DONE     | high   | fix bug | owner: ben".to_string()]
    );
    assert_eq!(listing(&tasks, Some("mine"), "zed"), Vec::<String>::new());
}

#[test]
fn the_export_has_a_header_and_a_line_per_task() {
    let mut tasks = sample();
    tasks[1].deadline = Date::new(2024, 2, 29);
    assert_eq!(csv_line(&tasks[0]), "1,Todo,low,,\"buy milk\"\n");
    assert_eq!(csv_line(&tasks[1]), "2,Done,high,2024-02-29,\"fix bug\"\n");
    assert_eq!(
        csv(&tasks),
        "id,status,priority,deadline,description\n1,Todo,low,,\"buy milk\"\n2,Done,high,2024-02-29,\"fix bug\"\n3,Blocked,medium,,\"wait for review\"\n"
    );
    assert_eq!(csv(&Vec::new()), "id,status,priority,deadline,description\n");
}

#[test]
fn the_export_writes_a_description_as_it_is() {
    let tasks = vec![task(1, "say \"hi\", then go", Status::Todo, "low", "u")];
    assert_eq!(
        csv(&tasks),
        "id,status,priority,deadline,description\n1,Todo,low,,\"say \"hi\", then go\"\n"
    );
}

#[test]
fn lines_about_projects_and_notes() {
    assert_eq!(note_line("call ben"), "- call ben\n");
    assert_eq!(note_line(""), "- \n");
    assert_eq!(
        project_line("garden", "2024-05-01 10:00:00 +02:00"),
        "📁 garden  (created 2024-05-01 10:00:00 +02:00)"
    );
    assert_eq!(fresh_task_file(), "[]");
}

#[test]
fn a_project_is_created_only_where_there_is_none() {
    assert_eq!(creation(true), Creation::AlreadyExists);
    assert_eq!(creation(false), Creation::Create);
    let project = new_project("garden", Instant { seconds: 1714550400, nanos: 5 });
    assert_eq!(project.name, "garden");
    assert_eq!(project.created_at, Instant { seconds: 1714550400, nanos: 5 });
}
