use coto::command::{parse_project_command, parse_task_command, CommandError, ProjectCommand, TaskCommand};
use coto::ordering::next_order;
use coto::records::Task;

/// The line that opens the project with display index `n`.
fn open(n: u32) -> String {
    format!("P{}", n)
}

#[test]
fn open_project_by_index() {
    assert_eq!(parse_project_command(&open(3)), Ok(ProjectCommand::Open(3)));
}

#[test]
fn verb_without_needed_target_is_rejected() {
    assert_eq!(parse_project_command("D"), Err(CommandError::UnrecognizedCommand));
    assert_eq!(parse_task_command("T"), Err(CommandError::UnrecognizedCommand));
}

#[test]
fn lowercase_verb_is_rejected() {
    assert_eq!(parse_task_command("b"), Err(CommandError::UnrecognizedCommand));
    assert_eq!(parse_project_command("p9"), Err(CommandError::UnrecognizedCommand));
}

#[test]
fn project_screen_verbs() {
    assert_eq!(parse_project_command("C"), Ok(ProjectCommand::Create));
    assert_eq!(parse_project_command("D12"), Ok(ProjectCommand::Delete(12)));
    assert_eq!(parse_project_command("U1"), Ok(ProjectCommand::Rename(1)));
    assert_eq!(parse_project_command("C4"), Err(CommandError::UnrecognizedCommand));
    assert_eq!(parse_project_command("P1x"), Err(CommandError::UnrecognizedCommand));
    assert_eq!(parse_project_command(""), Err(CommandError::UnrecognizedCommand));
    assert_eq!(parse_project_command("T1"), Err(CommandError::UnrecognizedCommand));
}

#[test]
fn task_screen_verbs() {
    assert_eq!(parse_task_command("T2"), Ok(TaskCommand::Close(2)));
    assert_eq!(parse_task_command("C"), Ok(TaskCommand::Create(None)));
    assert_eq!(parse_task_command("C7"), Ok(TaskCommand::Create(Some(7))));
    assert_eq!(parse_task_command("D1"), Ok(TaskCommand::Delete(1)));
    assert_eq!(parse_task_command("U3"), Ok(TaskCommand::Edit(3)));
    assert_eq!(parse_task_command("N"), Ok(TaskCommand::NewSection));
    assert_eq!(parse_task_command("R2"), Ok(TaskCommand::RemoveSection(2)));
    assert_eq!(parse_task_command("S2"), Ok(TaskCommand::RenameSection(2)));
    assert_eq!(parse_task_command("B"), Ok(TaskCommand::Back));
    assert_eq!(parse_task_command("B1"), Err(CommandError::UnrecognizedCommand));
    assert_eq!(parse_task_command("N 1"), Err(CommandError::UnrecognizedCommand));
    assert_eq!(parse_task_command("P9"), Err(CommandError::UnrecognizedCommand));
}

fn task(section: &str, order: &str) -> Task {
    Task {
        id: "1".to_string(),
        project_id: "p".to_string(),
        section_id: section.to_string(),
        native_order: order.to_string(),
        content: String::new(),
        priority: 1,
        created_at: String::new(),
        due_date: None,
    }
}

#[test]
fn next_order_follows_largest_numeric_order() {
    let tasks = vec![task("s", "3"), task("s", "null"), task("s", "7")];
    assert_eq!(next_order("s", &tasks), 8);
}

#[test]
fn next_order_of_empty_bucket_is_one() {
    let tasks = vec![task("other", "40")];
    assert_eq!(next_order("s", &tasks), 1);
    assert_eq!(next_order("s", &Vec::new()), 1);
}

#[test]
fn next_order_looks_only_at_its_bucket() {
    let tasks = vec![task("0", "2"), task("a", "90"), task("0", ""), task("0", "5")];
    assert_eq!(next_order("0", &tasks), 6);
    assert_eq!(next_order("a", &tasks), 91);
}
