use vstd::prelude::*;
use crate::records::{Project, Section, Task};

verus! {

/// A project with the number the user targets it by on this screen.
#[derive(Debug, PartialEq, Eq)]
pub struct ProjectLine {
    pub display_index: usize,
    pub project: Project,
}

/// A section with the number the user targets it by on this screen.
#[derive(Debug, PartialEq, Eq)]
pub struct SectionLine {
    pub display_index: usize,
    pub section: Section,
}

/// A task with its number on this screen and its bucket: 0 for the sentinel
/// bucket, otherwise the display index of its section.
#[derive(Debug, PartialEq, Eq)]
pub struct TaskLine {
    pub display_index: usize,
    pub bucket: usize,
    pub task: Task,
}

/// The project list as rendered.
#[derive(Debug, PartialEq, Eq)]
pub struct ProjectScreen {
    pub lines: Vec<ProjectLine>,
}

/// One project's sections and tasks as rendered; the tasks come bucket by
/// bucket, the sentinel bucket first, then the sections in order.
#[derive(Debug, PartialEq, Eq)]
pub struct TaskScreen {
    pub sections: Vec<SectionLine>,
    pub tasks: Vec<TaskLine>,
}

pub open spec fn project_lines(ps: Seq<Project>) -> Seq<ProjectLine> {
    Seq::new(ps.len(), |i: int| ProjectLine { display_index: (i + 1) as usize, project: ps[i] })
}

pub open spec fn section_lines(ss: Seq<Section>) -> Seq<SectionLine> {
    Seq::new(ss.len(), |i: int| SectionLine { display_index: (i + 1) as usize, section: ss[i] })
}

/// `i` is the first position of a section with the given id.
pub open spec fn first_match(secs: Seq<Section>, id: Seq<char>, i: int) -> bool {
    &&& 0 <= i < secs.len()
    &&& secs[i].id@ == id
    &&& forall|j: int| 0 <= j < i ==> secs[j].id@ != id
}

/// The bucket of a task: the display index of the first section whose id it
/// names, or 0 (the sentinel bucket) where none does.
pub open spec fn bucket_of(secs: Seq<Section>, t: Task) -> nat {
    if exists|i: int| first_match(secs, t.section_id@, i) {
        (choose|i: int| first_match(secs, t.section_id@, i)) as nat + 1
    } else {
        0
    }
}

/// The tasks of one bucket, in input order.
pub open spec fn bucket_tasks(secs: Seq<Section>, tasks: Seq<Task>, b: nat) -> Seq<Task>
    decreases tasks.len(),
{
    if tasks.len() == 0 {
        Seq::empty()
    } else {
        let prev = bucket_tasks(secs, tasks.drop_last(), b);
        if bucket_of(secs, tasks.last()) == b {
            prev.push(tasks.last())
        } else {
            prev
        }
    }
}

/// The tasks of buckets `0..n`, bucket after bucket.
pub open spec fn grouped_tasks(secs: Seq<Section>, tasks: Seq<Task>, n: nat) -> Seq<Task>
    decreases n,
{
    if n == 0 {
        Seq::empty()
    } else {
        grouped_tasks(secs, tasks, (n - 1) as nat) + bucket_tasks(secs, tasks, (n - 1) as nat)
    }
}

/// All tasks of a screen in display order.
pub open spec fn ordered_tasks(secs: Seq<Section>, tasks: Seq<Task>) -> Seq<Task> {
    grouped_tasks(secs, tasks, secs.len() + 1)
}

pub open spec fn task_lines(secs: Seq<Section>, tasks: Seq<Task>) -> Seq<TaskLine> {
    let order = ordered_tasks(secs, tasks);
    Seq::new(
        order.len(),
        |i: int|
            TaskLine {
                display_index: (i + 1) as usize,
                bucket: bucket_of(secs, order[i]) as usize,
                task: order[i],
            },
    )
}

/// The tasks that belong to one project, in input order.
pub open spec fn project_tasks(tasks: Seq<Task>, project_id: Seq<char>) -> Seq<Task>
    decreases tasks.len(),
{
    if tasks.len() == 0 {
        Seq::empty()
    } else {
        let prev = project_tasks(tasks.drop_last(), project_id);
        if tasks.last().project_id@ == project_id {
            prev.push(tasks.last())
        } else {
            prev
        }
    }
}

/// Keeps the tasks of one project, in the order given.
pub fn tasks_of_project(tasks: &Vec<Task>, project_id: &String) -> (r: Vec<Task>)
    ensures
        r@ == project_tasks(tasks@, project_id@),
{
    let mut out: Vec<Task> = Vec::new();
    let mut j: usize = 0;
    while j < tasks.len()
        invariant
            0 <= j <= tasks@.len(),
            out@ == project_tasks(tasks@.subrange(0, j as int), project_id@),
        decreases tasks@.len() - j,
    {
        assert(tasks@.subrange(0, j + 1).drop_last() =~= tasks@.subrange(0, j as int));
        if tasks[j].project_id == *project_id {
            out.push(tasks[j].duplicate());
        }
        j = j + 1;
    }
    assert(tasks@.subrange(0, tasks@.len() as int) =~= tasks@);
    out
}

/// Numbers the projects 1..N in the order given.
pub fn build_project_screen(projects: &Vec<Project>) -> (r: ProjectScreen)
    ensures
        r.lines@ == project_lines(projects@),
        forall|i: int| 0 <= i < r.lines@.len() ==> (#[trigger] r.lines@[i]).display_index == i + 1,
{
    let mut lines: Vec<ProjectLine> = Vec::new();
    let mut i: usize = 0;
    while i < projects.len()
        invariant
            0 <= i <= projects@.len(),
            lines@ == project_lines(projects@).subrange(0, i as int),
            forall|j: int| 0 <= j < i ==> (#[trigger] lines@[j]).display_index == j + 1,
        decreases projects@.len() - i,
    {
        lines.push(ProjectLine { display_index: i + 1, project: projects[i].duplicate() });
        i = i + 1;
        assert(lines@ =~= project_lines(projects@).subrange(0, i as int));
    }
    assert(lines@ =~= project_lines(projects@));
    ProjectScreen { lines }
}

/// The bucket of one task among the given sections.
pub fn bucket_index(secs: &Vec<Section>, t: &Task) -> (r: usize)
    ensures
        r as nat == bucket_of(secs@, *t),
        r <= secs@.len(),
{
    let mut i: usize = 0;
    while i < secs.len()
        invariant
            0 <= i <= secs@.len(),
            forall|j: int| 0 <= j < i ==> secs@[j].id@ != t.section_id@,
        decreases secs@.len() - i,
    {
        if secs[i].id == t.section_id {
            assert(first_match(secs@, t.section_id@, i as int));
            let ghost c = choose|k: int| first_match(secs@, t.section_id@, k);
            assert(c == i) by {
                if c < i {
                    assert(secs@[c].id@ != t.section_id@);
                } else if c > i {
                    assert(secs@[i as int].id@ != t.section_id@);
                }
            }
            return i + 1;
        }
        i = i + 1;
    }
    assert(!exists|k: int| first_match(secs@, t.section_id@, k)) by {
        if exists|k: int| first_match(secs@, t.section_id@, k) {
            let k = choose|k: int| first_match(secs@, t.section_id@, k);
            assert(secs@[k].id@ != t.section_id@);
        }
    }
    0
}

fn append_bucket(out: &mut Vec<Task>, secs: &Vec<Section>, tasks: &Vec<Task>, b: usize)
    ensures
        final(out)@ == old(out)@ + bucket_tasks(secs@, tasks@, b as nat),
{
    let ghost start = out@;
    let mut j: usize = 0;
    while j < tasks.len()
        invariant
            0 <= j <= tasks@.len(),
            out@ == start + bucket_tasks(secs@, tasks@.subrange(0, j as int), b as nat),
        decreases tasks@.len() - j,
    {
        assert(tasks@.subrange(0, j + 1).drop_last() =~= tasks@.subrange(0, j as int));
        if bucket_index(secs, &tasks[j]) == b {
            out.push(tasks[j].duplicate());
        }
        j = j + 1;
        assert(out@ =~= start + bucket_tasks(secs@, tasks@.subrange(0, j as int), b as nat));
    }
    assert(tasks@.subrange(0, tasks@.len() as int) =~= tasks@);
}

/// Numbers the sections 1..M in the order given, puts each task in its
/// bucket, and numbers all tasks 1..K across the buckets.
pub fn build_task_screen(sections: &Vec<Section>, tasks: &Vec<Task>) -> (r: TaskScreen)
    ensures
        r.sections@ == section_lines(sections@),
        r.tasks@ == task_lines(sections@, tasks@),
        forall|i: int| 0 <= i < r.sections@.len() ==> (#[trigger] r.sections@[i]).display_index == i + 1,
        forall|i: int| 0 <= i < r.tasks@.len() ==> (#[trigger] r.tasks@[i]).display_index == i + 1,
        r.tasks@.len() == tasks@.len(),
{
    let mut lines: Vec<SectionLine> = Vec::new();
    let mut i: usize = 0;
    while i < sections.len()
        invariant
            0 <= i <= sections@.len(),
            lines@ == section_lines(sections@).subrange(0, i as int),
            forall|j: int| 0 <= j < i ==> (#[trigger] lines@[j]).display_index == j + 1,
        decreases sections@.len() - i,
    {
        lines.push(SectionLine { display_index: i + 1, section: sections[i].duplicate() });
        i = i + 1;
        assert(lines@ =~= section_lines(sections@).subrange(0, i as int));
    }
    assert(lines@ =~= section_lines(sections@));

    let mut order: Vec<Task> = Vec::new();
    append_bucket(&mut order, sections, tasks, 0);
    assert(grouped_tasks(sections@, tasks@, 0) =~= Seq::<Task>::empty());
    assert(order@ =~= grouped_tasks(sections@, tasks@, 1));
    let mut k: usize = 0;
    while k < sections.len()
        invariant
            0 <= k <= sections@.len(),
            order@ == grouped_tasks(sections@, tasks@, (k + 1) as nat),
        decreases sections@.len() - k,
    {
        append_bucket(&mut order, sections, tasks, k + 1);
        k = k + 1;
    }

    let ghost want = task_lines(sections@, tasks@);
    let mut numbered: Vec<TaskLine> = Vec::new();
    let mut n: usize = 0;
    while n < order.len()
        invariant
            0 <= n <= order@.len(),
            order@ == ordered_tasks(sections@, tasks@),
            want == task_lines(sections@, tasks@),
            numbered@ == want.subrange(0, n as int),
            forall|j: int| 0 <= j < n ==> (#[trigger] numbered@[j]).display_index == j + 1,
        decreases order@.len() - n,
    {
        let bucket = bucket_index(sections, &order[n]);
        numbered.push(TaskLine { display_index: n + 1, bucket, task: order[n].duplicate() });
        n = n + 1;
        assert(numbered@ =~= want.subrange(0, n as int));
    }
    assert(numbered@ =~= want);
    proof { lemma_no_task_dropped(sections@, tasks@); }
    TaskScreen { sections: lines, tasks: numbered }
}

/// Display indices on a project screen run 1..N with no gap or repeat, and
/// depend on the number of projects alone: rebuilding from records of the
/// same count, in particular the same records, gives the same indices.
pub proof fn lemma_project_indices(ps: Seq<Project>, qs: Seq<Project>)
    requires
        ps.len() == qs.len(),
        ps.len() <= usize::MAX,
    ensures
        project_lines(ps).len() == ps.len(),
        forall|i: int| 0 <= i < ps.len() ==> (#[trigger] project_lines(ps)[i]).display_index == i + 1,
        forall|i: int, j: int|
            0 <= i < j < ps.len() ==> (#[trigger] project_lines(ps)[i]).display_index
                != (#[trigger] project_lines(ps)[j]).display_index,
        forall|i: int|
            0 <= i < ps.len() ==> (#[trigger] project_lines(ps)[i]).display_index
                == project_lines(qs)[i].display_index,
{
}

/// Task display indices on one screen run 1..K across all buckets together,
/// with no gap or repeat, one for each task given, and depend on the number
/// of tasks alone.
pub proof fn lemma_task_indices(
    secs: Seq<Section>,
    tasks: Seq<Task>,
    other_secs: Seq<Section>,
    other_tasks: Seq<Task>,
)
    requires
        tasks.len() == other_tasks.len(),
        tasks.len() <= usize::MAX,
    ensures
        task_lines(secs, tasks).len() == tasks.len(),
        forall|i: int|
            0 <= i < task_lines(secs, tasks).len() ==> (#[trigger] task_lines(secs, tasks)[i]).display_index == i + 1,
        forall|i: int, j: int|
            0 <= i < j < task_lines(secs, tasks).len() ==> (#[trigger] task_lines(secs, tasks)[i]).display_index
                != (#[trigger] task_lines(secs, tasks)[j]).display_index,
        forall|i: int|
            0 <= i < task_lines(secs, tasks).len() ==> (#[trigger] task_lines(secs, tasks)[i]).display_index
                == task_lines(other_secs, other_tasks)[i].display_index,
{
    lemma_no_task_dropped(secs, tasks);
    lemma_no_task_dropped(other_secs, other_tasks);
}

/// Section display indices run 1..M with no gap or repeat.
pub proof fn lemma_section_indices(ss: Seq<Section>)
    requires
        ss.len() <= usize::MAX,
    ensures
        section_lines(ss).len() == ss.len(),
        forall|i: int| 0 <= i < ss.len() ==> (#[trigger] section_lines(ss)[i]).display_index == i + 1,
{
}

/// How many of the tasks fall in a bucket below `n`.
pub open spec fn count_below(secs: Seq<Section>, tasks: Seq<Task>, n: nat) -> nat
    decreases tasks.len(),
{
    if tasks.len() == 0 {
        0
    } else {
        count_below(secs, tasks.drop_last(), n) + if bucket_of(secs, tasks.last()) < n { 1nat } else { 0 }
    }
}

proof fn lemma_bucket_bounded(secs: Seq<Section>, t: Task)
    ensures
        bucket_of(secs, t) <= secs.len(),
{
    if exists|i: int| first_match(secs, t.section_id@, i) {
        let i = choose|i: int| first_match(secs, t.section_id@, i);
        assert(first_match(secs, t.section_id@, i));
    }
}

proof fn lemma_count_step(secs: Seq<Section>, tasks: Seq<Task>, b: nat)
    ensures
        count_below(secs, tasks, b + 1) == count_below(secs, tasks, b) + bucket_tasks(secs, tasks, b).len(),
    decreases tasks.len(),
{
    if tasks.len() > 0 {
        lemma_count_step(secs, tasks.drop_last(), b);
    }
}

proof fn lemma_grouped_len(secs: Seq<Section>, tasks: Seq<Task>, n: nat)
    ensures
        grouped_tasks(secs, tasks, n).len() == count_below(secs, tasks, n),
    decreases n,
{
    if n == 0 {
        lemma_count_none(secs, tasks);
    } else {
        lemma_grouped_len(secs, tasks, (n - 1) as nat);
        lemma_count_step(secs, tasks, (n - 1) as nat);
    }
}

proof fn lemma_count_none(secs: Seq<Section>, tasks: Seq<Task>)
    ensures
        count_below(secs, tasks, 0) == 0,
    decreases tasks.len(),
{
    if tasks.len() > 0 {
        lemma_count_none(secs, tasks.drop_last());
    }
}

proof fn lemma_count_all(secs: Seq<Section>, tasks: Seq<Task>)
    ensures
        count_below(secs, tasks, secs.len() + 1) == tasks.len(),
    decreases tasks.len(),
{
    if tasks.len() > 0 {
        lemma_count_all(secs, tasks.drop_last());
        lemma_bucket_bounded(secs, tasks.last());
    }
}

/// Every task appears on its screen exactly as often as in the input: no
/// task is dropped or repeated when grouping by bucket.
pub proof fn lemma_no_task_dropped(secs: Seq<Section>, tasks: Seq<Task>)
    ensures
        ordered_tasks(secs, tasks).len() == tasks.len(),
        task_lines(secs, tasks).len() == tasks.len(),
{
    lemma_grouped_len(secs, tasks, secs.len() + 1);
    lemma_count_all(secs, tasks);
}

} // verus!
