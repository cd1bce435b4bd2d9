use vstd::prelude::*;
use crate::text::{number_of, parse_number};

verus! {

/// A command of the project screen; targets are display indices.
#[derive(Debug, PartialEq, Eq)]
pub enum ProjectCommand {
    Open(u64),
    Create,
    Delete(u64),
    Rename(u64),
}

/// A command of the task screen; targets are display indices.
#[derive(Debug, PartialEq, Eq)]
pub enum TaskCommand {
    Close(u64),
    /// Create a task in the section with this index, or in the sentinel bucket.
    Create(Option<u64>),
    Delete(u64),
    Edit(u64),
    NewSection,
    RemoveSection(u64),
    RenameSection(u64),
    Back,
}

#[derive(Debug, PartialEq, Eq)]
pub enum CommandError {
    UnrecognizedCommand,
}

/// What follows the verb letter.
pub open spec fn rest_of(line: Seq<char>) -> Seq<char> {
    line.subrange(1, line.len() as int)
}

/// The target of a verb that needs one.
pub open spec fn target_of(line: Seq<char>) -> Option<u64> {
    match number_of(rest_of(line)) {
        Some(n) => Some(n as u64),
        None => None,
    }
}

/// The line is a verb letter alone.
pub open spec fn bare(line: Seq<char>) -> bool {
    line.len() == 1
}

/// A line of the project screen as a command: the verb is the first
/// character, case-sensitive, and the rest is the target.
pub open spec fn project_command_of(line: Seq<char>) -> Option<ProjectCommand> {
    if line.len() == 0 {
        None
    } else {
        let v = line[0];
        let t = target_of(line);
        if v == 'P' && t is Some {
            Some(ProjectCommand::Open(t.unwrap()))
        } else if v == 'C' && bare(line) {
            Some(ProjectCommand::Create)
        } else if v == 'D' && t is Some {
            Some(ProjectCommand::Delete(t.unwrap()))
        } else if v == 'U' && t is Some {
            Some(ProjectCommand::Rename(t.unwrap()))
        } else {
            None
        }
    }
}

/// A line of the task screen as a command.
pub open spec fn task_command_of(line: Seq<char>) -> Option<TaskCommand> {
    if line.len() == 0 {
        None
    } else {
        let v = line[0];
        let t = target_of(line);
        if v == 'T' && t is Some {
            Some(TaskCommand::Close(t.unwrap()))
        } else if v == 'C' && bare(line) {
            Some(TaskCommand::Create(None))
        } else if v == 'C' && t is Some {
            Some(TaskCommand::Create(t))
        } else if v == 'D' && t is Some {
            Some(TaskCommand::Delete(t.unwrap()))
        } else if v == 'U' && t is Some {
            Some(TaskCommand::Edit(t.unwrap()))
        } else if v == 'N' && bare(line) {
            Some(TaskCommand::NewSection)
        } else if v == 'R' && t is Some {
            Some(TaskCommand::RemoveSection(t.unwrap()))
        } else if v == 'S' && t is Some {
            Some(TaskCommand::RenameSection(t.unwrap()))
        } else if v == 'B' && bare(line) {
            Some(TaskCommand::Back)
        } else {
            None
        }
    }
}

/// Splits a non-empty line into its verb and the number after it, if the
/// rest reads as one.
fn split_line(line: &str) -> (r: (char, Option<u64>))
    requires
        line@.len() > 0,
    ensures
        r.0 == line@[0],
        r.1 == target_of(line@),
{
    let verb = line.get_char(0);
    let target = parse_number(line, 1);
    match target {
        Some(n) => (verb, Some(n)),
        None => (verb, None),
    }
}

/// Reads one line typed on the project screen.
pub fn parse_project_command(line: &str) -> (r: Result<ProjectCommand, CommandError>)
    ensures
        r == match project_command_of(line@) {
            Some(c) => Ok(c),
            None => Err(CommandError::UnrecognizedCommand),
        },
{
    let n = line.unicode_len();
    if n == 0 {
        return Err(CommandError::UnrecognizedCommand);
    }
    let (verb, target) = split_line(line);
    match target {
        Some(t) => {
            if verb == 'P' {
                Ok(ProjectCommand::Open(t))
            } else if verb == 'D' {
                Ok(ProjectCommand::Delete(t))
            } else if verb == 'U' {
                Ok(ProjectCommand::Rename(t))
            } else {
                Err(CommandError::UnrecognizedCommand)
            }
        },
        None => {
            if verb == 'C' && n == 1 {
                Ok(ProjectCommand::Create)
            } else {
                Err(CommandError::UnrecognizedCommand)
            }
        },
    }
}

/// Reads one line typed on the task screen.
pub fn parse_task_command(line: &str) -> (r: Result<TaskCommand, CommandError>)
    ensures
        r == match task_command_of(line@) {
            Some(c) => Ok(c),
            None => Err(CommandError::UnrecognizedCommand),
        },
{
    let n = line.unicode_len();
    if n == 0 {
        return Err(CommandError::UnrecognizedCommand);
    }
    let (verb, target) = split_line(line);
    match target {
        Some(t) => {
            if verb == 'T' {
                Ok(TaskCommand::Close(t))
            } else if verb == 'C' {
                Ok(TaskCommand::Create(Some(t)))
            } else if verb == 'D' {
                Ok(TaskCommand::Delete(t))
            } else if verb == 'U' {
                Ok(TaskCommand::Edit(t))
            } else if verb == 'R' {
                Ok(TaskCommand::RemoveSection(t))
            } else if verb == 'S' {
                Ok(TaskCommand::RenameSection(t))
            } else {
                Err(CommandError::UnrecognizedCommand)
            }
        },
        None => {
            if n != 1 {
                Err(CommandError::UnrecognizedCommand)
            } else if verb == 'C' {
                Ok(TaskCommand::Create(None))
            } else if verb == 'N' {
                Ok(TaskCommand::NewSection)
            } else if verb == 'B' {
                Ok(TaskCommand::Back)
            } else {
                Err(CommandError::UnrecognizedCommand)
            }
        },
    }
}

} // verus!
