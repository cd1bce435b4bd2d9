use coto::config::{key_accepted, strip_line_end, Config};
use coto::navigator::{
    read_answer, task_fields_from_answers, Action, Answer, Navigator, Pending, RemoteCall, Screen, TaskFields,
};
use coto::records::{Project, RawProject, RawSection, RawTask, RawValue, RecordError, Section, Task};
use coto::view::{build_project_screen, build_task_screen, tasks_of_project};

fn text(s: &str) -> RawValue {
    RawValue::Text(s.to_string())
}

fn raw_project(id: i64, name: &str) -> RawProject {
    RawProject { id: RawValue::Int(id), name: text(name), shared: RawValue::Flag(false) }
}

fn raw_task(id: i64, project: i64, section: RawValue, content: &str, order: i64) -> RawTask {
    RawTask {
        id: RawValue::Int(id),
        project_id: RawValue::Int(project),
        section_id: section,
        order: RawValue::Int(order),
        content: text(content),
        priority: RawValue::Int(2),
        created: text("2020-05-01"),
        due_date: RawValue::Null,
    }
}

/// The line that opens the project with display index `n`.
fn open(n: u32) -> String {
    format!("P{}", n)
}

/// A navigator on the task screen of "Work": one section "Today" with one
/// task, one task in the sentinel bucket, and one task of another project.
fn work_screen() -> Navigator {
    let mut nav = Navigator::new();
    nav.show_projects(&vec![raw_project(1, "Inbox"), raw_project(2, "Work")]).unwrap();
    let sections = vec![RawSection { id: RawValue::Int(50), project_id: RawValue::Int(2), name: text("Today") }];
    let tasks = vec![
        raw_task(10, 2, RawValue::Int(50), "in section", 4),
        raw_task(11, 1, RawValue::Null, "elsewhere", 9),
        raw_task(12, 2, RawValue::Null, "loose", 2),
    ];
    nav.show_tasks("2".to_string(), "Work".to_string(), &sections, &tasks).unwrap();
    nav
}

#[test]
fn end_to_end_project_to_task_screen() {
    let mut nav = Navigator::new();
    nav.show_projects(&vec![raw_project(1, "Inbox"), raw_project(2, "Work")]).unwrap();
    assert_eq!(nav.projects.lines.len(), 2);
    assert_eq!(nav.projects.lines[0].display_index, 1);
    assert_eq!(nav.projects.lines[1].display_index, 2);
    let act = nav.command(&open(2));
    assert_eq!(act, Action::FetchTasks { project_id: "2".to_string(), project_name: "Work".to_string() });
    assert_eq!(nav.screen, Screen::Projects);

    let nav = work_screen();
    assert_eq!(nav.screen, Screen::Tasks { project_id: "2".to_string(), project_name: "Work".to_string() });
    assert_eq!(nav.task_screen.sections.len(), 1);
    assert_eq!(nav.task_screen.sections[0].display_index, 1);
    assert_eq!(nav.task_screen.sections[0].section.name, "Today");
    let lines = &nav.task_screen.tasks;
    assert_eq!(lines.len(), 2);
    assert_eq!(lines[0].display_index, 1);
    assert_eq!(lines[0].bucket, 0);
    assert_eq!(lines[0].task.content, "loose");
    assert_eq!(lines[1].display_index, 2);
    assert_eq!(lines[1].bucket, 1);
    assert_eq!(lines[1].task.content, "in section");
}

#[test]
fn display_indices_are_contiguous_and_stable() {
    let projects: Vec<Project> = (0..5)
        .map(|i| Project { id: format!("{}", i * 10), name: format!("p{}", i), is_shared: false })
        .collect();
    let a = build_project_screen(&projects);
    let b = build_project_screen(&projects);
    let idx: Vec<usize> = a.lines.iter().map(|l| l.display_index).collect();
    assert_eq!(idx, vec![1, 2, 3, 4, 5]);
    assert_eq!(a, b);
    assert_eq!(build_project_screen(&Vec::new()).lines.len(), 0);
}

#[test]
fn task_indices_are_shared_across_sections() {
    let sec = |id: &str| Section { id: id.to_string(), project_id: "p".to_string(), name: id.to_string() };
    let task = |id: &str, s: &str| Task {
        id: id.to_string(),
        project_id: "p".to_string(),
        section_id: s.to_string(),
        native_order: String::new(),
        content: id.to_string(),
        priority: 1,
        created_at: String::new(),
        due_date: None,
    };
    let sections = vec![sec("a"), sec("b")];
    let tasks = vec![task("t1", "b"), task("t2", "a"), task("t3", "zz"), task("t4", "b"), task("t5", "0")];
    let screen = build_task_screen(&sections, &tasks);
    let order: Vec<(usize, usize, String)> =
        screen.tasks.iter().map(|l| (l.display_index, l.bucket, l.task.id.clone())).collect();
    assert_eq!(
        order,
        vec![
            (1, 0, "t3".to_string()),
            (2, 0, "t5".to_string()),
            (3, 1, "t2".to_string()),
            (4, 2, "t1".to_string()),
            (5, 2, "t4".to_string()),
        ]
    );
    assert_eq!(screen.tasks.len(), tasks.len());
    assert_eq!(screen.sections[1].display_index, 2);
    let own = tasks_of_project(&tasks, &"q".to_string());
    assert_eq!(own.len(), 0);
}

#[test]
fn create_in_unknown_section_is_rejected() {
    let mut nav = work_screen();
    let before = work_screen();
    let sections = vec![
        RawSection { id: RawValue::Int(50), project_id: RawValue::Int(2), name: text("A") },
        RawSection { id: RawValue::Int(51), project_id: RawValue::Int(2), name: text("B") },
        RawSection { id: RawValue::Int(52), project_id: RawValue::Int(2), name: text("C") },
    ];
    nav.show_tasks("2".to_string(), "Work".to_string(), &sections, &Vec::new()).unwrap();
    assert_eq!(nav.command("C7"), Action::Rejected);
    assert_eq!(nav.pending, None);
    assert_eq!(nav.command("C3"), Action::AskTaskFields { current: None });
    assert_eq!(nav.pending, Some(Pending::CreateTask { section_id: Some("52".to_string()), order: 1 }));
    let mut nav = before;
    assert_eq!(nav.command("b"), Action::Rejected);
    assert_eq!(nav.command("T9"), Action::Rejected);
}

#[test]
fn declined_confirmation_changes_nothing() {
    let mut nav = work_screen();
    assert_eq!(nav.command("D1"), Action::AskConfirmation);
    assert_eq!(nav.give_confirmation("n"), Action::NotConfirmed { notice: false });
    assert_eq!(nav, work_screen());
    assert_eq!(nav.command("R1"), Action::AskConfirmation);
    assert_eq!(nav.give_confirmation("maybe"), Action::NotConfirmed { notice: true });
    assert_eq!(nav, work_screen());
}

#[test]
fn confirmed_deletes_call_once() {
    let mut nav = work_screen();
    nav.command("D2");
    assert_eq!(nav.give_confirmation("Y"), Action::Call(RemoteCall::DeleteTask { id: "10".to_string() }));
    nav.command("R1");
    assert_eq!(nav.give_confirmation("y"), Action::Call(RemoteCall::DeleteSection { id: "50".to_string() }));
    assert_eq!(nav.give_confirmation("y"), Action::Rejected);
    assert_eq!(read_answer("N"), Answer::No);
    assert_eq!(read_answer("yes"), Answer::Unclear);
}

#[test]
fn create_task_uses_next_order() {
    let mut nav = work_screen();
    assert_eq!(nav.command("C1"), Action::AskTaskFields { current: None });
    let act = nav.give_task_fields("buy milk".to_string(), 3, Some("2021-01-02".to_string()));
    assert_eq!(
        act,
        Action::Call(RemoteCall::CreateTask {
            content: "buy milk".to_string(),
            project_id: "2".to_string(),
            section_id: Some("50".to_string()),
            order: 5,
            priority: 3,
            due_date: Some("2021-01-02".to_string()),
        })
    );
    nav.command("C");
    let act = nav.give_task_fields("x".to_string(), 1, None);
    assert_eq!(
        act,
        Action::Call(RemoteCall::CreateTask {
            content: "x".to_string(),
            project_id: "2".to_string(),
            section_id: None,
            order: 3,
            priority: 1,
            due_date: None,
        })
    );
    nav.command("C");
    assert_eq!(nav.give_task_fields("x".to_string(), 5, None), Action::Rejected);
}

#[test]
fn edit_and_close_and_names() {
    let mut nav = work_screen();
    match nav.command("U1") {
        Action::AskTaskFields { current: Some(t) } => assert_eq!(t.content, "loose"),
        other => panic!("unexpected {:?}", other),
    }
    assert_eq!(
        nav.give_task_fields("tight".to_string(), 4, None),
        Action::Call(RemoteCall::UpdateTask { id: "12".to_string(), content: "tight".to_string(), priority: 4, due_date: None })
    );
    assert_eq!(nav.command("T2"), Action::Call(RemoteCall::CloseTask { id: "10".to_string() }));
    assert_eq!(nav.command("N"), Action::AskName);
    assert_eq!(
        nav.give_name("Later".to_string()),
        Action::Call(RemoteCall::CreateSection { name: "Later".to_string(), project_id: "2".to_string() })
    );
    assert_eq!(nav.command("S1"), Action::AskName);
    assert_eq!(
        nav.give_name("Now".to_string()),
        Action::Call(RemoteCall::RenameSection { id: "50".to_string(), name: "Now".to_string() })
    );
    assert_eq!(nav.give_name("stray".to_string()), Action::Rejected);
    assert_eq!(nav.refresh(), Action::FetchTasks { project_id: "2".to_string(), project_name: "Work".to_string() });
    assert_eq!(nav.command("B"), Action::FetchProjects);
}

#[test]
fn project_mutations() {
    let mut nav = Navigator::new();
    assert_eq!(nav.refresh(), Action::FetchProjects);
    nav.show_projects(&vec![raw_project(1, "Inbox"), raw_project(2, "Work")]).unwrap();
    assert_eq!(nav.command("C"), Action::AskName);
    assert_eq!(nav.give_name("Home".to_string()), Action::Call(RemoteCall::CreateProject { name: "Home".to_string() }));
    assert_eq!(nav.command("U2"), Action::AskName);
    assert_eq!(
        nav.give_name("Job".to_string()),
        Action::Call(RemoteCall::RenameProject { id: "2".to_string(), name: "Job".to_string() })
    );
    assert_eq!(nav.command("D1"), Action::AskConfirmation);
    assert_eq!(nav.give_confirmation("y"), Action::Call(RemoteCall::DeleteProject { id: "1".to_string() }));
    assert_eq!(nav.command(&open(3)), Action::Rejected);
    assert_eq!(nav.command("P0"), Action::Rejected);
}

#[test]
fn malformed_fetch_keeps_prior_state() {
    let mut nav = work_screen();
    let bad = vec![RawTask {
        id: RawValue::Null,
        project_id: RawValue::Int(2),
        section_id: RawValue::Null,
        order: RawValue::Null,
        content: text("x"),
        priority: RawValue::Null,
        created: RawValue::Null,
        due_date: RawValue::Null,
    }];
    let r = nav.show_tasks("1".to_string(), "Inbox".to_string(), &Vec::new(), &bad);
    assert_eq!(r, Err(RecordError::MalformedRecord { position: 0 }));
    assert_eq!(nav, work_screen());
    let r = nav.show_projects(&vec![RawProject { id: RawValue::Null, name: text("x"), shared: RawValue::Null }]);
    assert_eq!(r, Err(RecordError::MalformedRecord { position: 0 }));
    assert_eq!(nav, work_screen());
}

#[test]
fn key_handling() {
    assert!(Config::default().needs_key());
    assert!(!Config::with_key("abc".to_string()).needs_key());
    assert!(!key_accepted("Forbidden"));
    assert!(key_accepted("[]"));
    assert_eq!(strip_line_end("abc\n"), "abc");
    assert_eq!(strip_line_end("abc\r\n"), "abc");
    assert_eq!(strip_line_end("abc"), "abc");
    assert_eq!(strip_line_end(""), "");
}

#[test]
fn prompt_answers_keep_prefilled_values() {
    let nav = work_screen();
    let current = Some(nav.task_screen.tasks[1].task.duplicate());
    let kept = task_fields_from_answers(&current, "", "", "");
    assert_eq!(kept, TaskFields { content: "in section".to_string(), priority: 2, due_date: None });
    let typed = task_fields_from_answers(&current, "new text", "4", "2022-02-02");
    assert_eq!(
        typed,
        TaskFields { content: "new text".to_string(), priority: 4, due_date: Some("2022-02-02".to_string()) }
    );
    let fresh = task_fields_from_answers(&None, "a", "", "");
    assert_eq!(fresh, TaskFields { content: "a".to_string(), priority: 1, due_date: None });
    assert_eq!(task_fields_from_answers(&None, "a", "x", "").priority, 0);
    assert_eq!(task_fields_from_answers(&None, "a", "5", "").priority, 0);
}

#[test]
fn unreadable_priority_answer_is_rejected() {
    let mut nav = work_screen();
    nav.command("C");
    let fields = task_fields_from_answers(&None, "a", "high", "");
    assert_eq!(nav.give_task_fields(fields.content, fields.priority, fields.due_date), Action::Rejected);
}
