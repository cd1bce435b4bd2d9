use vstd::prelude::*;
use crate::text::{i64_text, int_text, number_of, parse_number, same_text};

verus! {

/// One field of a remote record as it arrived, before it is normalised.
#[derive(Debug, PartialEq, Eq)]
pub enum RawValue {
    Absent,
    Null,
    Flag(bool),
    Int(i64),
    Text(String),
    Other,
}

/// The fields of a remote project record.
#[derive(Debug, PartialEq, Eq)]
pub struct RawProject {
    pub id: RawValue,
    pub name: RawValue,
    pub shared: RawValue,
}

/// The fields of a remote section record.
#[derive(Debug, PartialEq, Eq)]
pub struct RawSection {
    pub id: RawValue,
    pub project_id: RawValue,
    pub name: RawValue,
}

/// The fields of a remote task record; `due_date` is the date inside the due object.
#[derive(Debug, PartialEq, Eq)]
pub struct RawTask {
    pub id: RawValue,
    pub project_id: RawValue,
    pub section_id: RawValue,
    pub order: RawValue,
    pub content: RawValue,
    pub priority: RawValue,
    pub created: RawValue,
    pub due_date: RawValue,
}

#[derive(Debug, PartialEq, Eq)]
pub struct Project {
    pub id: String,
    pub name: String,
    pub is_shared: bool,
}

#[derive(Debug, PartialEq, Eq)]
pub struct Section {
    pub id: String,
    pub project_id: String,
    pub name: String,
}

#[derive(Debug, PartialEq, Eq)]
pub struct Task {
    pub id: String,
    pub project_id: String,
    /// The owning section, or the sentinel bucket's id.
    pub section_id: String,
    /// The remote ordering field as text; empty when the remote gave none.
    pub native_order: String,
    pub content: String,
    /// 1 (lowest) to 4.
    pub priority: u8,
    pub created_at: String,
    pub due_date: Option<String>,
}

impl Project {
    /// A field-for-field copy.
    pub fn duplicate(&self) -> (r: Project)
        ensures
            r == *self,
    {
        Project { id: self.id.clone(), name: self.name.clone(), is_shared: self.is_shared }
    }
}

impl Section {
    /// A field-for-field copy.
    pub fn duplicate(&self) -> (r: Section)
        ensures
            r == *self,
    {
        Section { id: self.id.clone(), project_id: self.project_id.clone(), name: self.name.clone() }
    }
}

impl Task {
    /// A field-for-field copy.
    pub fn duplicate(&self) -> (r: Task)
        ensures
            r == *self,
    {
        let due_date = match &self.due_date {
            Some(d) => Some(d.clone()),
            None => None,
        };
        Task {
            id: self.id.clone(),
            project_id: self.project_id.clone(),
            section_id: self.section_id.clone(),
            native_order: self.native_order.clone(),
            content: self.content.clone(),
            priority: self.priority,
            created_at: self.created_at.clone(),
            due_date,
        }
    }
}

/// A remote record whose identifier is absent or neither text nor an integer,
/// by its position in the input.
#[derive(Debug, PartialEq, Eq)]
pub enum RecordError {
    MalformedRecord { position: usize },
}

/// Id of the bucket that holds a project's tasks without a section.
pub open spec fn sentinel_id() -> Seq<char> {
    seq!['0']
}

/// A field read as text: strings as they are, integers in decimal.
pub open spec fn text_of(v: RawValue) -> Option<Seq<char>> {
    match v {
        RawValue::Text(s) => Some(s@),
        RawValue::Int(n) => Some(int_text(n as int)),
        _ => None,
    }
}

/// A field read as text, with the empty text where there is none.
pub open spec fn text_or_empty(v: RawValue) -> Seq<char> {
    match text_of(v) {
        Some(t) => t,
        None => Seq::empty(),
    }
}

/// A required identifier: any text, or an integer in decimal.
pub open spec fn id_of(v: RawValue) -> Option<Seq<char>> {
    text_of(v)
}

pub open spec fn true_text() -> Seq<char> {
    seq!['t', 'r', 'u', 'e']
}

/// A boolean-like field: a boolean, an integer that is not zero, or the
/// same written as text ("true", or digits for a number that is not zero).
pub open spec fn flag_of(v: RawValue) -> bool {
    match v {
        RawValue::Flag(b) => b,
        RawValue::Int(n) => n != 0,
        RawValue::Text(s) => s@ == true_text() || (number_of(s@) matches Some(k) && k != 0),
        _ => false,
    }
}

/// The section a task belongs to: its id as text (integer 0 and text "0"
/// both name the sentinel), or the sentinel where no id is given.
pub open spec fn section_ref_of(v: RawValue) -> Seq<char> {
    match text_of(v) {
        Some(t) => t,
        None => sentinel_id(),
    }
}

/// A priority from 1 to 4, given as an integer or as its digits; anything
/// else reads as the lowest.
pub open spec fn priority_of(v: RawValue) -> u8 {
    match v {
        RawValue::Int(n) => if 1 <= n <= 4 { n as u8 } else { 1 },
        RawValue::Text(s) => match number_of(s@) {
            Some(k) => if 1 <= k <= 4 { k as u8 } else { 1 },
            None => 1,
        },
        _ => 1,
    }
}

pub open spec fn project_maps(raw: RawProject, p: Project) -> bool {
    &&& id_of(raw.id) == Some(p.id@)
    &&& p.name@ == text_or_empty(raw.name)
    &&& p.is_shared == flag_of(raw.shared)
}

pub open spec fn section_maps(raw: RawSection, s: Section) -> bool {
    &&& id_of(raw.id) == Some(s.id@)
    &&& s.project_id@ == text_or_empty(raw.project_id)
    &&& s.name@ == text_or_empty(raw.name)
}

pub open spec fn task_maps(raw: RawTask, t: Task) -> bool {
    &&& id_of(raw.id) == Some(t.id@)
    &&& t.project_id@ == text_or_empty(raw.project_id)
    &&& t.section_id@ == section_ref_of(raw.section_id)
    &&& t.native_order@ == text_or_empty(raw.order)
    &&& t.content@ == text_or_empty(raw.content)
    &&& t.priority == priority_of(raw.priority)
    &&& t.created_at@ == text_or_empty(raw.created)
    &&& match t.due_date {
        Some(d) => text_of(raw.due_date) == Some(d@),
        None => text_of(raw.due_date) is None,
    }
}

pub fn read_text(v: &RawValue) -> (r: Option<String>)
    ensures
        match r {
            Some(s) => text_of(*v) == Some(s@),
            None => text_of(*v) is None,
        },
{
    match v {
        RawValue::Text(s) => Some(s.clone()),
        RawValue::Int(n) => Some(i64_text(*n)),
        _ => None,
    }
}

pub fn read_text_or_empty(v: &RawValue) -> (r: String)
    ensures
        r@ == text_or_empty(*v),
{
    match read_text(v) {
        Some(s) => s,
        None => String::new(),
    }
}

pub fn read_id(v: &RawValue) -> (r: Option<String>)
    ensures
        match r {
            Some(s) => id_of(*v) == Some(s@),
            None => id_of(*v) is None,
        },
{
    read_text(v)
}

pub fn read_flag(v: &RawValue) -> (r: bool)
    ensures
        r == flag_of(*v),
{
    match v {
        RawValue::Flag(b) => *b,
        RawValue::Int(n) => *n != 0,
        RawValue::Text(s) => {
            proof { reveal_strlit("true"); }
            assert("true"@ =~= true_text());
            if same_text(s.as_str(), "true") {
                true
            } else {
                let n = s.unicode_len();
                assert(s@.subrange(0, n as int) =~= s@);
                match parse_number(s.as_str(), 0) {
                    Some(k) => k != 0,
                    None => false,
                }
            }
        },
        _ => false,
    }
}

pub fn read_section_ref(v: &RawValue) -> (r: String)
    ensures
        r@ == section_ref_of(*v),
{
    match read_text(v) {
        Some(s) => s,
        None => {
            proof { reveal_strlit("0"); }
            String::from_str("0")
        },
    }
}

pub fn read_priority(v: &RawValue) -> (r: u8)
    ensures
        r == priority_of(*v),
        1 <= r <= 4,
{
    match v {
        RawValue::Int(n) => if 1 <= *n && *n <= 4 { *n as u8 } else { 1 },
        RawValue::Text(s) => {
            let n = s.unicode_len();
            assert(s@.subrange(0, n as int) =~= s@);
            match parse_number(s.as_str(), 0) {
                Some(k) => if 1 <= k && k <= 4 { k as u8 } else { 1 },
                None => 1,
            }
        },
        _ => 1,
    }
}

/// Maps remote project records, in the order given, to typed records; fails at the
/// first record whose id is absent, null, or neither text nor an integer.
pub fn map_projects(raw: &Vec<RawProject>) -> (r: Result<Vec<Project>, RecordError>)
    ensures
        match r {
            Ok(out) => out@.len() == raw@.len() && forall|i: int|
                0 <= i < raw@.len() ==> project_maps(#[trigger] raw@[i], out@[i]),
            Err(RecordError::MalformedRecord { position }) => position < raw@.len()
                && id_of(raw@[position as int].id) is None
                && forall|j: int| 0 <= j < position ==> id_of(#[trigger] raw@[j].id) is Some,
        },
        r is Ok <==> forall|i: int| 0 <= i < raw@.len() ==> id_of(#[trigger] raw@[i].id) is Some,
{
    let mut out: Vec<Project> = Vec::new();
    let mut i: usize = 0;
    while i < raw.len()
        invariant
            0 <= i <= raw@.len(),
            out@.len() == i,
            forall|j: int| 0 <= j < i ==> project_maps(#[trigger] raw@[j], out@[j]),
        decreases raw@.len() - i,
    {
        let rec = &raw[i];
        let id = match read_id(&rec.id) {
            Some(id) => id,
            None => {
                proof {
                    assert forall|j: int| 0 <= j < i implies id_of(#[trigger] raw@[j].id) is Some by {
                        assert(project_maps(raw@[j], out@[j]));
                    }
                }
                return Err(RecordError::MalformedRecord { position: i });
            },
        };
        out.push(Project {
            id,
            name: read_text_or_empty(&rec.name),
            is_shared: read_flag(&rec.shared),
        });
        i = i + 1;
    }
    proof {
        assert forall|j: int| 0 <= j < raw@.len() implies id_of(#[trigger] raw@[j].id) is Some by {
            assert(project_maps(raw@[j], out@[j]));
        }
    }
    Ok(out)
}

/// Maps remote section records, in the order given, to typed records; fails at the
/// first record whose id is absent, null, or neither text nor an integer.
pub fn map_sections(raw: &Vec<RawSection>) -> (r: Result<Vec<Section>, RecordError>)
    ensures
        match r {
            Ok(out) => out@.len() == raw@.len() && forall|i: int|
                0 <= i < raw@.len() ==> section_maps(#[trigger] raw@[i], out@[i]),
            Err(RecordError::MalformedRecord { position }) => position < raw@.len()
                && id_of(raw@[position as int].id) is None
                && forall|j: int| 0 <= j < position ==> id_of(#[trigger] raw@[j].id) is Some,
        },
        r is Ok <==> forall|i: int| 0 <= i < raw@.len() ==> id_of(#[trigger] raw@[i].id) is Some,
{
    let mut out: Vec<Section> = Vec::new();
    let mut i: usize = 0;
    while i < raw.len()
        invariant
            0 <= i <= raw@.len(),
            out@.len() == i,
            forall|j: int| 0 <= j < i ==> section_maps(#[trigger] raw@[j], out@[j]),
        decreases raw@.len() - i,
    {
        let rec = &raw[i];
        let id = match read_id(&rec.id) {
            Some(id) => id,
            None => {
                proof {
                    assert forall|j: int| 0 <= j < i implies id_of(#[trigger] raw@[j].id) is Some by {
                        assert(section_maps(raw@[j], out@[j]));
                    }
                }
                return Err(RecordError::MalformedRecord { position: i });
            },
        };
        out.push(Section {
            id,
            project_id: read_text_or_empty(&rec.project_id),
            name: read_text_or_empty(&rec.name),
        });
        i = i + 1;
    }
    proof {
        assert forall|j: int| 0 <= j < raw@.len() implies id_of(#[trigger] raw@[j].id) is Some by {
            assert(section_maps(raw@[j], out@[j]));
        }
    }
    Ok(out)
}

/// Maps remote task records, in the order given, to typed records; fails at the
/// first record whose id is absent, null, or neither text nor an integer.
pub fn map_tasks(raw: &Vec<RawTask>) -> (r: Result<Vec<Task>, RecordError>)
    ensures
        match r {
            Ok(out) => out@.len() == raw@.len() && forall|i: int|
                0 <= i < raw@.len() ==> task_maps(#[trigger] raw@[i], out@[i]),
            Err(RecordError::MalformedRecord { position }) => position < raw@.len()
                && id_of(raw@[position as int].id) is None
                && forall|j: int| 0 <= j < position ==> id_of(#[trigger] raw@[j].id) is Some,
        },
        r is Ok <==> forall|i: int| 0 <= i < raw@.len() ==> id_of(#[trigger] raw@[i].id) is Some,
{
    let mut out: Vec<Task> = Vec::new();
    let mut i: usize = 0;
    while i < raw.len()
        invariant
            0 <= i <= raw@.len(),
            out@.len() == i,
            forall|j: int| 0 <= j < i ==> task_maps(#[trigger] raw@[j], out@[j]),
        decreases raw@.len() - i,
    {
        let rec = &raw[i];
        let id = match read_id(&rec.id) {
            Some(id) => id,
            None => {
                proof {
                    assert forall|j: int| 0 <= j < i implies id_of(#[trigger] raw@[j].id) is Some by {
                        assert(task_maps(raw@[j], out@[j]));
                    }
                }
                return Err(RecordError::MalformedRecord { position: i });
            },
        };
        out.push(Task {
            id,
            project_id: read_text_or_empty(&rec.project_id),
            section_id: read_section_ref(&rec.section_id),
            native_order: read_text_or_empty(&rec.order),
            content: read_text_or_empty(&rec.content),
            priority: read_priority(&rec.priority),
            created_at: read_text_or_empty(&rec.created),
            due_date: read_text(&rec.due_date),
        });
        i = i + 1;
    }
    proof {
        assert forall|j: int| 0 <= j < raw@.len() implies id_of(#[trigger] raw@[j].id) is Some by {
            assert(task_maps(raw@[j], out@[j]));
        }
    }
    Ok(out)
}

} // verus!
