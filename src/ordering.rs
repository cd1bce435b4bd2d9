use vstd::prelude::*;
use crate::records::Task;
use crate::text::{number_of, parse_number, same_text, NUMBER_LIMIT};

verus! {

/// The largest numeric native order among the tasks of a bucket, or 0 where
/// the bucket holds none.
pub open spec fn bucket_max(bucket_id: Seq<char>, tasks: Seq<Task>) -> nat
    decreases tasks.len(),
{
    if tasks.len() == 0 {
        0
    } else {
        let prev = bucket_max(bucket_id, tasks.drop_last());
        let t = tasks.last();
        if t.section_id@ == bucket_id {
            match number_of(t.native_order@) {
                Some(v) => if v > prev { v } else { prev },
                None => prev,
            }
        } else {
            prev
        }
    }
}

/// The native order a new task of the bucket takes: one past the largest
/// numeric order already in it, or 1 for a bucket with none.
pub open spec fn next_order_of(bucket_id: Seq<char>, tasks: Seq<Task>) -> nat {
    bucket_max(bucket_id, tasks) + 1
}

/// Insertion order for a new task in the bucket `bucket_id`.
pub fn next_order(bucket_id: &str, tasks: &Vec<Task>) -> (r: u64)
    ensures
        r as nat == next_order_of(bucket_id@, tasks@),
        (forall|i: int| 0 <= i < tasks@.len() ==> (#[trigger] tasks@[i]).section_id@ != bucket_id@)
            ==> r == 1,
{
    let mut best: u64 = 0;
    let mut j: usize = 0;
    while j < tasks.len()
        invariant
            0 <= j <= tasks@.len(),
            best as nat == bucket_max(bucket_id@, tasks@.subrange(0, j as int)),
            best <= NUMBER_LIMIT,
        decreases tasks@.len() - j,
    {
        assert(tasks@.subrange(0, j + 1).drop_last() =~= tasks@.subrange(0, j as int));
        let t = &tasks[j];
        assert(tasks@.subrange(0, j + 1).last() == tasks@[j as int]);
        if same_text(t.section_id.as_str(), bucket_id) {
            let order = t.native_order.as_str();
            match parse_number(order, 0) {
                Some(v) => {
                    assert(order@.subrange(0, order@.len() as int) =~= order@);
                    if v > best {
                        best = v;
                    }
                },
                None => {
                    assert(order@.subrange(0, order@.len() as int) =~= order@);
                },
            }
        }
        j = j + 1;
    }
    assert(tasks@.subrange(0, tasks@.len() as int) =~= tasks@);
    proof {
        if forall|i: int| 0 <= i < tasks@.len() ==> (#[trigger] tasks@[i]).section_id@ != bucket_id@ {
            lemma_no_bucket_tasks(bucket_id@, tasks@);
        }
    }
    best + 1
}

proof fn lemma_no_bucket_tasks(bucket_id: Seq<char>, tasks: Seq<Task>)
    requires
        forall|i: int| 0 <= i < tasks.len() ==> (#[trigger] tasks[i]).section_id@ != bucket_id,
    ensures
        bucket_max(bucket_id, tasks) == 0,
    decreases tasks.len(),
{
    if tasks.len() > 0 {
        let rest = tasks.drop_last();
        assert forall|i: int| 0 <= i < rest.len() implies (#[trigger] rest[i]).section_id@ != bucket_id by {
            assert(rest[i] == tasks[i]);
        }
        lemma_no_bucket_tasks(bucket_id, rest);
        assert(tasks.last() == tasks[tasks.len() - 1]);
    }
}

} // verus!
