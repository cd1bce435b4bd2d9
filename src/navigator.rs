use vstd::prelude::*;
use crate::command::{
    parse_project_command, parse_task_command, project_command_of, task_command_of,
    ProjectCommand, TaskCommand,
};
use crate::ordering::{next_order, next_order_of};
use crate::text::{number_of, parse_number};
use crate::records::{
    id_of, map_projects, map_sections, map_tasks, project_maps, section_maps, sentinel_id,
    task_maps, Project, RawProject, RawSection, RawTask, RecordError, Section, Task,
};
use crate::view::{
    build_project_screen, build_task_screen, lemma_no_task_dropped, project_tasks, task_lines,
    tasks_of_project, ProjectScreen, TaskScreen,
};

verus! {

/// The screen being shown.
#[derive(Debug, PartialEq, Eq)]
pub enum Screen {
    Projects,
    Tasks { project_id: String, project_name: String },
}

/// A command that waits for more input before it can act.
#[derive(Debug, PartialEq, Eq)]
pub enum Pending {
    CreateProject,
    RenameProject { id: String },
    DeleteProject { id: String },
    CreateTask { section_id: Option<String>, order: u64 },
    EditTask { id: String },
    DeleteTask { id: String },
    CreateSection,
    RenameSection { id: String },
    RemoveSection { id: String },
}

/// One mutating call to the remote service.
#[derive(Debug, PartialEq, Eq)]
pub enum RemoteCall {
    CreateProject { name: String },
    RenameProject { id: String, name: String },
    DeleteProject { id: String },
    CreateSection { name: String, project_id: String },
    RenameSection { id: String, name: String },
    DeleteSection { id: String },
    CreateTask {
        content: String,
        project_id: String,
        section_id: Option<String>,
        order: u64,
        priority: u8,
        due_date: Option<String>,
    },
    UpdateTask { id: String, content: String, priority: u8, due_date: Option<String> },
    CloseTask { id: String },
    DeleteTask { id: String },
}

/// What the hosting loop does next.
#[derive(Debug, PartialEq, Eq)]
pub enum Action {
    /// Fetch the projects and hand them to `show_projects`.
    FetchProjects,
    /// Fetch this project's sections and all tasks and hand them to `show_tasks`.
    FetchTasks { project_id: String, project_name: String },
    /// Prompt for a name and hand it to `give_name`.
    AskName,
    /// Prompt for content, priority and due date, pre-filled from the task
    /// being edited, and hand them to `give_task_fields`.
    AskTaskFields { current: Option<Task> },
    /// Ask y/n and hand the answer to `give_confirmation`.
    AskConfirmation,
    /// Make this call, then fetch again as `refresh` says.
    Call(RemoteCall),
    /// The input was not understood; the screen stays as it is.
    Rejected,
    /// A destructive command was dropped; `notice` when the answer was neither y nor n.
    NotConfirmed { notice: bool },
}

/// A y/n answer.
#[derive(Debug, PartialEq, Eq)]
pub enum Answer {
    Yes,
    No,
    Unclear,
}

/// The screen shown, the views last built for it, and any command waiting for input.
#[derive(Debug, PartialEq, Eq)]
pub struct Navigator {
    pub screen: Screen,
    pub projects: ProjectScreen,
    pub task_screen: TaskScreen,
    /// The tasks of the open project, as last fetched.
    pub tasks: Vec<Task>,
    pub pending: Option<Pending>,
}

/// The sections shown on the task screen, in order.
pub open spec fn shown_sections(nav: Navigator) -> Seq<Section> {
    Seq::new(nav.task_screen.sections@.len(), |i: int| nav.task_screen.sections@[i].section)
}

impl Navigator {
    /// The views are numbered 1..N by position, and the task lines are the
    /// held tasks grouped under the shown sections: so resolving a display
    /// index by position, and ordering new tasks by the held tasks, agree
    /// with what is shown.
    pub open spec fn wf(self) -> bool {
        &&& forall|i: int|
            0 <= i < self.projects.lines@.len() ==> (#[trigger] self.projects.lines@[i]).display_index
                == i + 1
        &&& forall|i: int|
            0 <= i < self.task_screen.sections@.len() ==> (#[trigger] self.task_screen.sections@[i]).display_index
                == i + 1
        &&& self.task_screen.tasks@ == task_lines(shown_sections(self), self.tasks@)
    }
}

pub open spec fn idle(nav: Navigator) -> Navigator {
    Navigator { pending: None, ..nav }
}

pub open spec fn waiting(nav: Navigator, p: Pending) -> Navigator {
    Navigator { pending: Some(p), ..nav }
}

/// The project shown with display index `n`.
pub open spec fn project_target(nav: Navigator, n: u64) -> Option<Project> {
    if 1 <= n <= nav.projects.lines@.len() {
        Some(nav.projects.lines@[n - 1].project)
    } else {
        None
    }
}

/// The section shown with display index `n`.
pub open spec fn section_target(nav: Navigator, n: u64) -> Option<Section> {
    if 1 <= n <= nav.task_screen.sections@.len() {
        Some(nav.task_screen.sections@[n - 1].section)
    } else {
        None
    }
}

/// The task shown with display index `n`.
pub open spec fn task_target(nav: Navigator, n: u64) -> Option<Task> {
    if 1 <= n <= nav.task_screen.tasks@.len() {
        Some(nav.task_screen.tasks@[n - 1].task)
    } else {
        None
    }
}

pub open spec fn rejected(nav: Navigator) -> (Navigator, Action) {
    (idle(nav), Action::Rejected)
}

pub open spec fn after_project_command(nav: Navigator, c: ProjectCommand) -> (Navigator, Action) {
    match c {
        ProjectCommand::Open(n) => match project_target(nav, n) {
            Some(p) => (idle(nav), Action::FetchTasks { project_id: p.id, project_name: p.name }),
            None => rejected(nav),
        },
        ProjectCommand::Create => (waiting(nav, Pending::CreateProject), Action::AskName),
        ProjectCommand::Delete(n) => match project_target(nav, n) {
            Some(p) => (waiting(nav, Pending::DeleteProject { id: p.id }), Action::AskConfirmation),
            None => rejected(nav),
        },
        ProjectCommand::Rename(n) => match project_target(nav, n) {
            Some(p) => (waiting(nav, Pending::RenameProject { id: p.id }), Action::AskName),
            None => rejected(nav),
        },
    }
}

pub open spec fn after_task_command(nav: Navigator, c: TaskCommand) -> (Navigator, Action) {
    match c {
        TaskCommand::Close(n) => match task_target(nav, n) {
            Some(t) => (idle(nav), Action::Call(RemoteCall::CloseTask { id: t.id })),
            None => rejected(nav),
        },
        TaskCommand::Create(None) => (
            waiting(
                nav,
                Pending::CreateTask {
                    section_id: None,
                    order: next_order_of(sentinel_id(), nav.tasks@) as u64,
                },
            ),
            Action::AskTaskFields { current: None },
        ),
        TaskCommand::Create(Some(n)) => match section_target(nav, n) {
            Some(s) => (
                waiting(
                    nav,
                    Pending::CreateTask {
                        section_id: Some(s.id),
                        order: next_order_of(s.id@, nav.tasks@) as u64,
                    },
                ),
                Action::AskTaskFields { current: None },
            ),
            None => rejected(nav),
        },
        TaskCommand::Delete(n) => match task_target(nav, n) {
            Some(t) => (waiting(nav, Pending::DeleteTask { id: t.id }), Action::AskConfirmation),
            None => rejected(nav),
        },
        TaskCommand::Edit(n) => match task_target(nav, n) {
            Some(t) => (
                waiting(nav, Pending::EditTask { id: t.id }),
                Action::AskTaskFields { current: Some(t) },
            ),
            None => rejected(nav),
        },
        TaskCommand::NewSection => (waiting(nav, Pending::CreateSection), Action::AskName),
        TaskCommand::RemoveSection(n) => match section_target(nav, n) {
            Some(s) => (waiting(nav, Pending::RemoveSection { id: s.id }), Action::AskConfirmation),
            None => rejected(nav),
        },
        TaskCommand::RenameSection(n) => match section_target(nav, n) {
            Some(s) => (waiting(nav, Pending::RenameSection { id: s.id }), Action::AskName),
            None => rejected(nav),
        },
        TaskCommand::Back => (idle(nav), Action::FetchProjects),
    }
}

/// The state and action that a command line leads to on the current screen.
pub open spec fn after_command(nav: Navigator, line: Seq<char>) -> (Navigator, Action) {
    match nav.screen {
        Screen::Projects => match project_command_of(line) {
            Some(c) => after_project_command(nav, c),
            None => rejected(nav),
        },
        Screen::Tasks { .. } => match task_command_of(line) {
            Some(c) => after_task_command(nav, c),
            None => rejected(nav),
        },
    }
}

/// The state and action after a name was typed for the waiting command.
pub open spec fn after_name(nav: Navigator, name: String) -> (Navigator, Action) {
    match nav.pending {
        Some(Pending::CreateProject) => (
            idle(nav),
            Action::Call(RemoteCall::CreateProject { name }),
        ),
        Some(Pending::RenameProject { id }) => (
            idle(nav),
            Action::Call(RemoteCall::RenameProject { id, name }),
        ),
        Some(Pending::CreateSection) => match nav.screen {
            Screen::Tasks { project_id, .. } => (
                idle(nav),
                Action::Call(RemoteCall::CreateSection { name, project_id }),
            ),
            Screen::Projects => rejected(nav),
        },
        Some(Pending::RenameSection { id }) => (
            idle(nav),
            Action::Call(RemoteCall::RenameSection { id, name }),
        ),
        _ => (nav, Action::Rejected),
    }
}

pub open spec fn valid_priority(priority: u8) -> bool {
    1 <= priority <= 4
}

/// The state and action after the fields of a task were typed for the waiting command.
pub open spec fn after_task_fields(
    nav: Navigator,
    content: String,
    priority: u8,
    due_date: Option<String>,
) -> (Navigator, Action) {
    match nav.pending {
        Some(Pending::CreateTask { section_id, order }) => {
            if !valid_priority(priority) {
                rejected(nav)
            } else {
                match nav.screen {
                    Screen::Tasks { project_id, .. } => (
                        idle(nav),
                        Action::Call(
                            RemoteCall::CreateTask {
                                content,
                                project_id,
                                section_id,
                                order,
                                priority,
                                due_date,
                            },
                        ),
                    ),
                    Screen::Projects => rejected(nav),
                }
            }
        },
        Some(Pending::EditTask { id }) => {
            if !valid_priority(priority) {
                rejected(nav)
            } else {
                (idle(nav), Action::Call(RemoteCall::UpdateTask { id, content, priority, due_date }))
            }
        },
        _ => (nav, Action::Rejected),
    }
}

/// A typed y/n answer: y or n in either case; anything else is unclear.
pub open spec fn answer_of(a: Seq<char>) -> Answer {
    if a == seq!['y'] || a == seq!['Y'] {
        Answer::Yes
    } else if a == seq!['n'] || a == seq!['N'] {
        Answer::No
    } else {
        Answer::Unclear
    }
}

/// The call a waiting destructive command makes once confirmed.
pub open spec fn destructive_call(p: Pending) -> Option<RemoteCall> {
    match p {
        Pending::DeleteProject { id } => Some(RemoteCall::DeleteProject { id }),
        Pending::DeleteTask { id } => Some(RemoteCall::DeleteTask { id }),
        Pending::RemoveSection { id } => Some(RemoteCall::DeleteSection { id }),
        _ => None,
    }
}

/// The state and action after a y/n answer to the waiting command.
pub open spec fn after_confirmation(nav: Navigator, a: Seq<char>) -> (Navigator, Action) {
    match nav.pending {
        Some(p) => match destructive_call(p) {
            Some(call) => match answer_of(a) {
                Answer::Yes => (idle(nav), Action::Call(call)),
                Answer::No => (idle(nav), Action::NotConfirmed { notice: false }),
                Answer::Unclear => (idle(nav), Action::NotConfirmed { notice: true }),
            },
            None => (nav, Action::Rejected),
        },
        None => (nav, Action::Rejected),
    }
}

/// The fetch that rebuilds the current screen.
pub open spec fn refresh_of(nav: Navigator) -> Action {
    match nav.screen {
        Screen::Projects => Action::FetchProjects,
        Screen::Tasks { project_id, project_name } => Action::FetchTasks { project_id, project_name },
    }
}

impl Navigator {
    /// The project screen, before anything was fetched.
    pub fn new() -> (r: Navigator)
        ensures
            r.screen == Screen::Projects,
            r.projects.lines@.len() == 0,
            r.task_screen.sections@.len() == 0,
            r.task_screen.tasks@.len() == 0,
            r.tasks@.len() == 0,
            r.pending is None,
            r.wf(),
    {
        let r = Navigator {
            screen: Screen::Projects,
            projects: ProjectScreen { lines: Vec::new() },
            task_screen: TaskScreen { sections: Vec::new(), tasks: Vec::new() },
            tasks: Vec::new(),
            pending: None,
        };
        proof {
            lemma_no_task_dropped(shown_sections(r), r.tasks@);
            assert(r.task_screen.tasks@ =~= task_lines(shown_sections(r), r.tasks@));
        }
        r
    }

    fn resolve_project(&self, n: u64) -> (r: Option<Project>)
        ensures
            r == project_target(*self, n),
    {
        if 1 <= n && n <= self.projects.lines.len() as u64 {
            Some(self.projects.lines[(n - 1) as usize].project.duplicate())
        } else {
            None
        }
    }

    fn resolve_section(&self, n: u64) -> (r: Option<Section>)
        ensures
            r == section_target(*self, n),
    {
        if 1 <= n && n <= self.task_screen.sections.len() as u64 {
            Some(self.task_screen.sections[(n - 1) as usize].section.duplicate())
        } else {
            None
        }
    }

    fn resolve_task(&self, n: u64) -> (r: Option<Task>)
        ensures
            r == task_target(*self, n),
    {
        if 1 <= n && n <= self.task_screen.tasks.len() as u64 {
            Some(self.task_screen.tasks[(n - 1) as usize].task.duplicate())
        } else {
            None
        }
    }

    fn on_project_screen(&mut self, c: ProjectCommand) -> (r: Action)
        ensures
            (*final(self), r) == after_project_command(*old(self), c),
    {
        match c {
            ProjectCommand::Open(n) => match self.resolve_project(n) {
                Some(p) => {
                    self.pending = None;
                    Action::FetchTasks { project_id: p.id, project_name: p.name }
                },
                None => {
                    self.pending = None;
                    Action::Rejected
                },
            },
            ProjectCommand::Create => {
                self.pending = Some(Pending::CreateProject);
                Action::AskName
            },
            ProjectCommand::Delete(n) => match self.resolve_project(n) {
                Some(p) => {
                    self.pending = Some(Pending::DeleteProject { id: p.id });
                    Action::AskConfirmation
                },
                None => {
                    self.pending = None;
                    Action::Rejected
                },
            },
            ProjectCommand::Rename(n) => match self.resolve_project(n) {
                Some(p) => {
                    self.pending = Some(Pending::RenameProject { id: p.id });
                    Action::AskName
                },
                None => {
                    self.pending = None;
                    Action::Rejected
                },
            },
        }
    }

    fn on_task_screen(&mut self, c: TaskCommand) -> (r: Action)
        ensures
            (*final(self), r) == after_task_command(*old(self), c),
    {
        match c {
            TaskCommand::Close(n) => match self.resolve_task(n) {
                Some(t) => {
                    self.pending = None;
                    Action::Call(RemoteCall::CloseTask { id: t.id })
                },
                None => {
                    self.pending = None;
                    Action::Rejected
                },
            },
            TaskCommand::Create(None) => {
                proof { reveal_strlit("0"); }
                assert("0"@ =~= sentinel_id());
                let order = next_order("0", &self.tasks);
                self.pending = Some(Pending::CreateTask { section_id: None, order });
                Action::AskTaskFields { current: None }
            },
            TaskCommand::Create(Some(n)) => match self.resolve_section(n) {
                Some(s) => {
                    let order = next_order(s.id.as_str(), &self.tasks);
                    self.pending = Some(Pending::CreateTask { section_id: Some(s.id), order });
                    Action::AskTaskFields { current: None }
                },
                None => {
                    self.pending = None;
                    Action::Rejected
                },
            },
            TaskCommand::Delete(n) => match self.resolve_task(n) {
                Some(t) => {
                    self.pending = Some(Pending::DeleteTask { id: t.id });
                    Action::AskConfirmation
                },
                None => {
                    self.pending = None;
                    Action::Rejected
                },
            },
            TaskCommand::Edit(n) => match self.resolve_task(n) {
                Some(t) => {
                    self.pending = Some(Pending::EditTask { id: t.id.clone() });
                    Action::AskTaskFields { current: Some(t) }
                },
                None => {
                    self.pending = None;
                    Action::Rejected
                },
            },
            TaskCommand::NewSection => {
                self.pending = Some(Pending::CreateSection);
                Action::AskName
            },
            TaskCommand::RemoveSection(n) => match self.resolve_section(n) {
                Some(s) => {
                    self.pending = Some(Pending::RemoveSection { id: s.id });
                    Action::AskConfirmation
                },
                None => {
                    self.pending = None;
                    Action::Rejected
                },
            },
            TaskCommand::RenameSection(n) => match self.resolve_section(n) {
                Some(s) => {
                    self.pending = Some(Pending::RenameSection { id: s.id });
                    Action::AskName
                },
                None => {
                    self.pending = None;
                    Action::Rejected
                },
            },
            TaskCommand::Back => {
                self.pending = None;
                Action::FetchProjects
            },
        }
    }

    /// Reads a command line on the current screen and resolves its target
    /// through the views held; any command still waiting for input is dropped.
    pub fn command(&mut self, line: &str) -> (r: Action)
        ensures
            (*final(self), r) == after_command(*old(self), line@),
            old(self).wf() ==> final(self).wf(),
    {
        let on_projects = match self.screen {
            Screen::Projects => true,
            Screen::Tasks { .. } => false,
        };
        if on_projects {
            match parse_project_command(line) {
                Ok(c) => self.on_project_screen(c),
                Err(_) => {
                    self.pending = None;
                    Action::Rejected
                },
            }
        } else {
            match parse_task_command(line) {
                Ok(c) => self.on_task_screen(c),
                Err(_) => {
                    self.pending = None;
                    Action::Rejected
                },
            }
        }
    }
}

/// Reads a y/n answer.
pub fn read_answer(a: &str) -> (r: Answer)
    ensures
        r == answer_of(a@),
{
    if a.unicode_len() != 1 {
        return Answer::Unclear;
    }
    let c = a.get_char(0);
    if c == 'y' || c == 'Y' {
        assert(a@ =~= seq![c]);
        Answer::Yes
    } else if c == 'n' || c == 'N' {
        assert(a@ =~= seq![c]);
        Answer::No
    } else {
        assert(a@ != seq!['y'] && a@ != seq!['Y'] && a@ != seq!['n'] && a@ != seq!['N']) by {
            assert(a@[0] == c);
        }
        Answer::Unclear
    }
}

/// A task's content, priority and due date as typed at the prompts.
#[derive(Debug, PartialEq, Eq)]
pub struct TaskFields {
    pub content: String,
    /// 1 to 4, or 0 where the answer did not read as one of those.
    pub priority: u8,
    pub due_date: Option<String>,
}

/// The content a prompt is pre-filled with: the edited task's, or none.
pub open spec fn prefill_content(current: Option<Task>) -> Seq<char> {
    match current {
        Some(t) => t.content@,
        None => Seq::empty(),
    }
}

/// The priority a prompt is pre-filled with: the edited task's, or the lowest.
pub open spec fn prefill_priority(current: Option<Task>) -> u8 {
    match current {
        Some(t) => t.priority,
        None => 1,
    }
}

/// The due date a prompt is pre-filled with: the edited task's, or none.
pub open spec fn prefill_due(current: Option<Task>) -> Seq<char> {
    match current {
        Some(t) => match t.due_date {
            Some(d) => d@,
            None => Seq::empty(),
        },
        None => Seq::empty(),
    }
}

/// An empty answer keeps the pre-filled text.
pub open spec fn answer_or(answer: Seq<char>, prefill: Seq<char>) -> Seq<char> {
    if answer.len() == 0 {
        prefill
    } else {
        answer
    }
}

/// The priority answered: the pre-filled one for an empty answer, the digits
/// of 1 to 4, or 0 for anything else.
pub open spec fn priority_answer(current: Option<Task>, answer: Seq<char>) -> u8 {
    if answer.len() == 0 {
        prefill_priority(current)
    } else {
        match number_of(answer) {
            Some(k) => if 1 <= k <= 4 { k as u8 } else { 0 },
            None => 0,
        }
    }
}

/// The due date answered: an empty result means no due date.
pub open spec fn due_answer(current: Option<Task>, answer: Seq<char>) -> Option<Seq<char>> {
    let d = answer_or(answer, prefill_due(current));
    if d.len() == 0 {
        None
    } else {
        Some(d)
    }
}

fn text_answer(answer: &str, prefill: &str) -> (r: String)
    ensures
        r@ == answer_or(answer@, prefill@),
{
    if answer.unicode_len() == 0 {
        String::from_str(prefill)
    } else {
        String::from_str(answer)
    }
}

/// Reads the answers to the content, priority and due-date prompts, each
/// pre-filled from `current` (the task being edited, or none for a new task).
pub fn task_fields_from_answers(
    current: &Option<Task>,
    content: &str,
    priority: &str,
    due_date: &str,
) -> (r: TaskFields)
    ensures
        r.content@ == answer_or(content@, prefill_content(*current)),
        r.priority == priority_answer(*current, priority@),
        match r.due_date {
            Some(d) => due_answer(*current, due_date@) == Some(d@),
            None => due_answer(*current, due_date@) is None,
        },
{
    let empty = String::new();
    let (c, p, d) = match current {
        Some(t) => (
            &t.content,
            t.priority,
            match &t.due_date {
                Some(d) => d,
                None => &empty,
            },
        ),
        None => (&empty, 1u8, &empty),
    };
    let content = text_answer(content, c.as_str());
    let n = priority.unicode_len();
    let priority = if n == 0 {
        p
    } else {
        assert(priority@.subrange(0, n as int) =~= priority@);
        match parse_number(priority, 0) {
            Some(k) => if 1 <= k && k <= 4 { k as u8 } else { 0 },
            None => 0,
        }
    };
    let due = text_answer(due_date, d.as_str());
    let due_date = if due.unicode_len() == 0 { None } else { Some(due) };
    TaskFields { content, priority, due_date }
}

impl Navigator {
    /// Completes a command that waits for a name.
    pub fn give_name(&mut self, name: String) -> (r: Action)
        ensures
            (*final(self), r) == after_name(*old(self), name),
            old(self).wf() ==> final(self).wf(),
    {
        let call = match &self.pending {
            Some(Pending::CreateProject) => Some(RemoteCall::CreateProject { name }),
            Some(Pending::RenameProject { id }) => Some(
                RemoteCall::RenameProject { id: id.clone(), name },
            ),
            Some(Pending::CreateSection) => match &self.screen {
                Screen::Tasks { project_id, .. } => Some(
                    RemoteCall::CreateSection { name, project_id: project_id.clone() },
                ),
                Screen::Projects => None,
            },
            Some(Pending::RenameSection { id }) => Some(
                RemoteCall::RenameSection { id: id.clone(), name },
            ),
            _ => {
                return Action::Rejected;
            },
        };
        self.pending = None;
        match call {
            Some(c) => Action::Call(c),
            None => Action::Rejected,
        }
    }

    /// Completes a command that waits for a task's content, priority and due date.
    pub fn give_task_fields(
        &mut self,
        content: String,
        priority: u8,
        due_date: Option<String>,
    ) -> (r: Action)
        ensures
            (*final(self), r) == after_task_fields(*old(self), content, priority, due_date),
            old(self).wf() ==> final(self).wf(),
    {
        let ok = 1 <= priority && priority <= 4;
        let call = match &self.pending {
            Some(Pending::CreateTask { section_id, order }) => {
                if !ok {
                    None
                } else {
                    match &self.screen {
                        Screen::Tasks { project_id, .. } => {
                            let section_id = match section_id {
                                Some(s) => Some(s.clone()),
                                None => None,
                            };
                            Some(
                                RemoteCall::CreateTask {
                                    content,
                                    project_id: project_id.clone(),
                                    section_id,
                                    order: *order,
                                    priority,
                                    due_date,
                                },
                            )
                        },
                        Screen::Projects => None,
                    }
                }
            },
            Some(Pending::EditTask { id }) => {
                if !ok {
                    None
                } else {
                    Some(RemoteCall::UpdateTask { id: id.clone(), content, priority, due_date })
                }
            },
            _ => {
                return Action::Rejected;
            },
        };
        self.pending = None;
        match call {
            Some(c) => Action::Call(c),
            None => Action::Rejected,
        }
    }

    /// Completes a destructive command with the user's y/n answer.
    pub fn give_confirmation(&mut self, answer: &str) -> (r: Action)
        ensures
            (*final(self), r) == after_confirmation(*old(self), answer@),
            old(self).wf() ==> final(self).wf(),
    {
        let call = match &self.pending {
            Some(Pending::DeleteProject { id }) => RemoteCall::DeleteProject { id: id.clone() },
            Some(Pending::DeleteTask { id }) => RemoteCall::DeleteTask { id: id.clone() },
            Some(Pending::RemoveSection { id }) => RemoteCall::DeleteSection { id: id.clone() },
            _ => {
                return Action::Rejected;
            },
        };
        self.pending = None;
        match read_answer(answer) {
            Answer::Yes => Action::Call(call),
            Answer::No => Action::NotConfirmed { notice: false },
            Answer::Unclear => Action::NotConfirmed { notice: true },
        }
    }

    /// The fetch that rebuilds the current screen, as after a remote call,
    /// whether it succeeded or failed.
    pub fn refresh(&self) -> (r: Action)
        ensures
            r == refresh_of(*self),
    {
        match &self.screen {
            Screen::Projects => Action::FetchProjects,
            Screen::Tasks { project_id, project_name } => Action::FetchTasks {
                project_id: project_id.clone(),
                project_name: project_name.clone(),
            },
        }
    }

    /// Shows the project screen built from freshly fetched records; on a
    /// malformed record nothing changes.
    pub fn show_projects(&mut self, raw: &Vec<RawProject>) -> (r: Result<(), RecordError>)
        ensures
            r is Ok <==> forall|i: int| 0 <= i < raw@.len() ==> id_of(#[trigger] raw@[i].id) is Some,
            r is Err ==> *final(self) == *old(self),
            old(self).wf() ==> final(self).wf(),
            r is Ok ==> {
                &&& final(self).screen == Screen::Projects
                &&& final(self).pending is None
                &&& final(self).task_screen == old(self).task_screen
                &&& final(self).tasks == old(self).tasks
                &&& final(self).projects.lines@.len() == raw@.len()
                &&& forall|i: int|
                    0 <= i < raw@.len() ==> {
                        &&& (#[trigger] final(self).projects.lines@[i]).display_index == i + 1
                        &&& project_maps(raw@[i], final(self).projects.lines@[i].project)
                    }
            },
    {
        match map_projects(raw) {
            Ok(ps) => {
                let screen = build_project_screen(&ps);
                self.projects = screen;
                self.screen = Screen::Projects;
                self.pending = None;
                assert forall|i: int| 0 <= i < raw@.len() implies project_maps(
                    raw@[i],
                    self.projects.lines@[i].project,
                ) by {
                    assert(project_maps(raw@[i], ps@[i]));
                }
                Ok(())
            },
            Err(e) => Err(e),
        }
    }

    /// Shows one project's task screen built from freshly fetched sections
    /// and tasks (tasks of other projects are left out); on a malformed record
    /// nothing changes.
    pub fn show_tasks(
        &mut self,
        project_id: String,
        project_name: String,
        sections: &Vec<RawSection>,
        tasks: &Vec<RawTask>,
    ) -> (r: Result<(), RecordError>)
        ensures
            r is Ok <==> (forall|i: int| 0 <= i < sections@.len() ==> id_of(#[trigger] sections@[i].id) is Some)
                && (forall|i: int| 0 <= i < tasks@.len() ==> id_of(#[trigger] tasks@[i].id) is Some),
            r is Err ==> *final(self) == *old(self),
            old(self).wf() ==> final(self).wf(),
            r is Ok ==> {
                &&& final(self).screen == (Screen::Tasks { project_id, project_name })
                &&& final(self).pending is None
                &&& final(self).projects == old(self).projects
                &&& final(self).task_screen.sections@.len() == sections@.len()
                &&& (forall|i: int|
                    0 <= i < sections@.len() ==> {
                        &&& (#[trigger] final(self).task_screen.sections@[i]).display_index == i + 1
                        &&& section_maps(sections@[i], final(self).task_screen.sections@[i].section)
                    })
                &&& exists|all: Seq<Task>|
                    {
                        &&& all.len() == tasks@.len()
                        &&& (forall|i: int| 0 <= i < tasks@.len() ==> task_maps(#[trigger] tasks@[i], all[i]))
                        &&& final(self).tasks@ == project_tasks(all, project_id@)
                    }
                &&& final(self).task_screen.tasks@ == task_lines(
                    Seq::new(
                        sections@.len(),
                        |i: int| final(self).task_screen.sections@[i].section,
                    ),
                    final(self).tasks@,
                )
            },
    {
        let secs = match map_sections(sections) {
            Ok(secs) => secs,
            Err(e) => {
                proof {
                    let k = match e { RecordError::MalformedRecord { position } => position };
                    assert(id_of(sections@[k as int].id) is None);
                }
                return Err(e);
            },
        };
        let all = match map_tasks(tasks) {
            Ok(all) => all,
            Err(e) => {
                proof {
                    let k = match e { RecordError::MalformedRecord { position } => position };
                    assert(id_of(tasks@[k as int].id) is None);
                }
                return Err(e);
            },
        };
        let own = tasks_of_project(&all, &project_id);
        let screen = build_task_screen(&secs, &own);
        proof {
            assert(Seq::new(sections@.len(), |i: int| screen.sections@[i].section) =~= secs@);
            assert forall|i: int| 0 <= i < sections@.len() implies section_maps(
                sections@[i],
                screen.sections@[i].section,
            ) by {
                assert(section_maps(sections@[i], secs@[i]));
            }
        }
        self.task_screen = screen;
        self.tasks = own;
        self.screen = Screen::Tasks { project_id, project_name };
        self.pending = None;
        Ok(())
    }
}

/// Answering anything but yes to a destructive command makes no remote call
/// and leaves the screen and its views as they were.
pub proof fn lemma_declined_changes_nothing(nav: Navigator, answer: Seq<char>)
    requires
        answer_of(answer) != Answer::Yes,
    ensures
        !(after_confirmation(nav, answer).1 is Call),
        after_confirmation(nav, answer).0.screen == nav.screen,
        after_confirmation(nav, answer).0.projects == nav.projects,
        after_confirmation(nav, answer).0.task_screen == nav.task_screen,
        after_confirmation(nav, answer).0.tasks == nav.tasks,
{
}

/// A command line by itself never changes the screen or its views, and the
/// only remote call it leads to at once is closing a task: every other
/// mutation waits for more input, and destructive ones for a confirmation.
pub proof fn lemma_command_keeps_views(nav: Navigator, line: Seq<char>)
    ensures
        after_command(nav, line).0.screen == nav.screen,
        after_command(nav, line).0.projects == nav.projects,
        after_command(nav, line).0.task_screen == nav.task_screen,
        after_command(nav, line).0.tasks == nav.tasks,
        after_command(nav, line).1 is Call ==> (after_command(nav, line).1 matches Action::Call(
            RemoteCall::CloseTask { .. },
        )),
{
}

/// Every transition keeps the views numbered by position and the task lines
/// in step with the held tasks.
pub proof fn lemma_transitions_keep_wf(
    nav: Navigator,
    line: Seq<char>,
    name: String,
    content: String,
    priority: u8,
    due_date: Option<String>,
    answer: Seq<char>,
)
    requires
        nav.wf(),
    ensures
        after_command(nav, line).0.wf(),
        after_name(nav, name).0.wf(),
        after_task_fields(nav, content, priority, due_date).0.wf(),
        after_confirmation(nav, answer).0.wf(),
{
    assert(shown_sections(idle(nav)) =~= shown_sections(nav));
    assert forall|p: Pending| shown_sections(#[trigger] waiting(nav, p)) =~= shown_sections(nav) by {}
}

} // verus!
