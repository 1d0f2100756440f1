//! Move tasks: validation of the source root, enumeration of tasks from the
//! walked entries, and the idempotency filter.
use vstd::prelude::*;
use crate::error::{MigrationError, SourceProblem};
use crate::path::{FsPath, is_strictly_under, relocated};

verus! {

/// One filesystem entry to relocate, paired with its destination.
pub struct MoveTask {
    pub src: FsPath,
    pub dst: FsPath,
}

/// The model of a task: its source and destination paths.
pub struct MoveTaskView {
    pub src: Seq<Seq<char>>,
    pub dst: Seq<Seq<char>>,
}

impl View for MoveTask {
    type V = MoveTaskView;

    open spec fn view(&self) -> MoveTaskView {
        MoveTaskView { src: self.src@, dst: self.dst@ }
    }
}

impl MoveTask {
    /// An independent copy of the task.
    pub fn duplicate(&self) -> (r: MoveTask)
        ensures
            r@ == self@,
    {
        MoveTask { src: self.src.duplicate(), dst: self.dst.duplicate() }
    }
}

/// The views of a sequence of tasks.
pub open spec fn task_views(tasks: Seq<MoveTask>) -> Seq<MoveTaskView> {
    tasks.map_values(|t: MoveTask| t@)
}

/// The views of a sequence of paths.
pub open spec fn path_views(paths: Seq<FsPath>) -> Seq<Seq<Seq<char>>> {
    paths.map_values(|p: FsPath| p@)
}

/// Every entry lies strictly below the source root.
pub open spec fn all_under(entries: Seq<Seq<Seq<char>>>, root: Seq<Seq<char>>) -> bool {
    forall|i: int| 0 <= i < entries.len() ==> is_strictly_under(#[trigger] entries[i], root)
}

/// The task for each entry, in enumeration order.
pub open spec fn tasks_for(
    entries: Seq<Seq<Seq<char>>>,
    src_root: Seq<Seq<char>>,
    dst_root: Seq<Seq<char>>,
) -> Seq<MoveTaskView> {
    entries.map_values(
        |e: Seq<Seq<char>>| MoveTaskView { src: e, dst: relocated(e, src_root, dst_root) },
    )
}

/// The result of validating the source root from what a stat call reported.
pub open spec fn source_check(exists: bool, is_dir: bool) -> Result<(), MigrationError> {
    if !exists {
        Err(MigrationError::InvalidSource(SourceProblem::Missing))
    } else if !is_dir {
        Err(MigrationError::InvalidSource(SourceProblem::NotADirectory))
    } else {
        Ok(())
    }
}

/// Validates the source root: it must exist and be a directory.
pub fn check_source(exists: bool, is_dir: bool) -> (r: Result<(), MigrationError>)
    ensures
        r == source_check(exists, is_dir),
{
    if !exists {
        Err(MigrationError::InvalidSource(SourceProblem::Missing))
    } else if !is_dir {
        Err(MigrationError::InvalidSource(SourceProblem::NotADirectory))
    } else {
        Ok(())
    }
}

/// Builds one task per walked entry (the root itself excluded), each mapped to
/// the same relative position below `dst_root`. Fails with `Enumeration` when
/// an entry does not lie strictly below `src_root`.
pub fn build_tasks(src_root: &FsPath, dst_root: &FsPath, entries: &Vec<FsPath>) -> (r: Result<
    Vec<MoveTask>,
    MigrationError,
>)
    ensures
        r.is_ok() <==> all_under(path_views(entries@), src_root@),
        r matches Err(e) ==> e == MigrationError::Enumeration,
        r matches Ok(ts) ==> task_views(ts@) == tasks_for(path_views(entries@), src_root@, dst_root@),
{
    let mut tasks: Vec<MoveTask> = Vec::new();
    let mut i: usize = 0;
    while i < entries.len()
        invariant
            i <= entries.len(),
            tasks@.len() == i,
            forall|j: int| 0 <= j < i ==> is_strictly_under(#[trigger] entries@[j]@, src_root@),
            forall|j: int|
                0 <= j < i ==> (#[trigger] tasks@[j])@ == (MoveTaskView {
                    src: entries@[j]@,
                    dst: relocated(entries@[j]@, src_root@, dst_root@),
                }),
        decreases entries.len() - i,
    {
        match entries[i].relocate(src_root, dst_root) {
            Some(dst) => {
                tasks.push(MoveTask { src: entries[i].duplicate(), dst });
            },
            None => {
                assert(!is_strictly_under(path_views(entries@)[i as int], src_root@));
                return Err(MigrationError::Enumeration);
            },
        }
        i += 1;
    }
    assert(task_views(tasks@) =~= tasks_for(path_views(entries@), src_root@, dst_root@));
    Ok(tasks)
}

/// The tasks whose destination was absent at filter time, in their order.
pub open spec fn pending_of(tasks: Seq<MoveTaskView>, present: Seq<bool>) -> Seq<MoveTaskView>
    decreases tasks.len(),
{
    if tasks.len() == 0 {
        Seq::empty()
    } else {
        let n = tasks.len() - 1;
        let rest = pending_of(tasks.drop_last(), present.subrange(0, n));
        if n < present.len() && present[n] {
            rest
        } else {
            rest.push(tasks[n])
        }
    }
}

/// How many destinations were reported present.
pub open spec fn present_count(present: Seq<bool>) -> nat
    decreases present.len(),
{
    if present.len() == 0 {
        0
    } else {
        present_count(present.drop_last()) + if present.last() {
            1nat
        } else {
            0nat
        }
    }
}

/// The tasks to process and the number skipped because their destination
/// already existed.
pub struct Partition {
    pub pending: Vec<MoveTask>,
    pub skipped: usize,
}

/// Splits `tasks` by whether their destination exists (`dst_present[i]`
/// reports the destination of `tasks[i]`, of any type). A task with a present
/// destination is dropped and counted as skipped; the others are kept in
/// order.
pub fn partition_pending(tasks: &Vec<MoveTask>, dst_present: &Vec<bool>) -> (r: Partition)
    requires
        tasks.len() == dst_present.len(),
    ensures
        task_views(r.pending@) == pending_of(task_views(tasks@), dst_present@),
        r.skipped == present_count(dst_present@),
        r.skipped + r.pending.len() == tasks.len(),
{
    let mut pending: Vec<MoveTask> = Vec::new();
    let mut skipped: usize = 0;
    let mut i: usize = 0;
    while i < tasks.len()
        invariant
            i <= tasks.len(),
            tasks.len() == dst_present.len(),
            task_views(pending@) == pending_of(task_views(tasks@).subrange(0, i as int), dst_present@.subrange(0, i as int)),
            skipped == present_count(dst_present@.subrange(0, i as int)),
            skipped + pending.len() == i,
        decreases tasks.len() - i,
    {
        let ghost before = pending@;
        let ghost tv = task_views(tasks@).subrange(0, i + 1);
        let ghost pv = dst_present@.subrange(0, i + 1);
        assert(tv.drop_last() =~= task_views(tasks@).subrange(0, i as int));
        assert(pv.subrange(0, i as int) =~= dst_present@.subrange(0, i as int));
        assert(pv.drop_last() =~= dst_present@.subrange(0, i as int));
        if dst_present[i] {
            skipped += 1;
        } else {
            pending.push(tasks[i].duplicate());
            assert(task_views(pending@) =~= task_views(before).push(tasks@[i as int]@));
        }
        i += 1;
    }
    assert(task_views(tasks@).subrange(0, tasks.len() as int) =~= task_views(tasks@));
    assert(dst_present@.subrange(0, tasks.len() as int) =~= dst_present@);
    Partition { pending, skipped }
}

} // verus!
