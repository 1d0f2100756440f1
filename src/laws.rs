//! Properties of whole runs, stated over the models of the engine's steps.
use vstd::prelude::*;
use crate::error::{FailureCause, MigrationError, TaskFailure};
use crate::mover::{
    CopyResult, CreateResult, EntryKind, MoveAction, MoveEvent, MoveStage, Outcome, action_of,
    next_stage, run_events,
};
use crate::path::{is_strictly_under, relative_to, relocated};
use crate::summary::{
    MigrationSummary, ScanPlan, cleans_up, conclusion_of, failure_count, first_failure,
    lemma_counts_partition, lemma_first_failure_is_first, plan_of, skip_count, success_count,
    summary_of,
};
use crate::task::{MoveTaskView, pending_of, present_count, tasks_for};

verus! {

/// No two entries share a destination: below a fixed pair of roots, the
/// destination determines the source entry.
pub proof fn lemma_destination_determines_source(
    p: Seq<Seq<char>>,
    q: Seq<Seq<char>>,
    from: Seq<Seq<char>>,
    to: Seq<Seq<char>>,
)
    requires
        is_strictly_under(p, from),
        is_strictly_under(q, from),
        relocated(p, from, to) == relocated(q, from, to),
    ensures
        p == q,
{
    let rp = relative_to(p, from);
    let rq = relative_to(q, from);
    assert(rp =~= relocated(p, from, to).subrange(to.len() as int, relocated(p, from, to).len() as int));
    assert(rq =~= relocated(q, from, to).subrange(to.len() as int, relocated(q, from, to).len() as int));
    assert(p =~= from + rp);
    assert(q =~= from + rq);
}

/// Every pending task is a task whose destination was reported absent.
pub proof fn lemma_pending_were_absent(tasks: Seq<MoveTaskView>, present: Seq<bool>)
    requires
        present.len() == tasks.len(),
    ensures
        forall|k: int|
            #![trigger pending_of(tasks, present)[k]]
            0 <= k < pending_of(tasks, present).len() ==> exists|j: int|
                #![trigger tasks[j]]
                0 <= j < tasks.len() && !present[j] && pending_of(tasks, present)[k] == tasks[j],
    decreases tasks.len(),
{
    if tasks.len() > 0 {
        let n = tasks.len() - 1;
        let rest_t = tasks.drop_last();
        let rest_p = present.subrange(0, n as int);
        lemma_pending_were_absent(rest_t, rest_p);
        assert(forall|j: int| 0 <= j < n ==> rest_t[j] == tasks[j] && rest_p[j] == present[j]);
        assert forall|k: int|
            #![trigger pending_of(tasks, present)[k]]
            0 <= k < pending_of(tasks, present).len() implies exists|j: int|
                #![trigger tasks[j]]
                0 <= j < tasks.len() && !present[j] && pending_of(tasks, present)[k] == tasks[j] by {
            if k < pending_of(rest_t, rest_p).len() {
                assert(pending_of(tasks, present)[k] == pending_of(rest_t, rest_p)[k]);
                let j = choose|j: int|
                    #![trigger rest_t[j]]
                    0 <= j < rest_t.len() && !rest_p[j] && pending_of(rest_t, rest_p)[k] == rest_t[j];
                assert(!present[j] && pending_of(tasks, present)[k] == tasks[j]);
            } else {
                assert(pending_of(tasks, present)[k] == tasks[n as int] && !present[n as int]);
            }
        }
    } else {
        assert(pending_of(tasks, present).len() == 0);
    }
}

/// The length of the pending tasks and the count of present destinations add
/// up to the number of tasks.
pub proof fn lemma_partition_sizes(tasks: Seq<MoveTaskView>, present: Seq<bool>)
    requires
        present.len() == tasks.len(),
    ensures
        pending_of(tasks, present).len() + present_count(present) == tasks.len(),
    decreases tasks.len(),
{
    if tasks.len() > 0 {
        let n = tasks.len() - 1;
        assert(present.drop_last() =~= present.subrange(0, n as int));
        lemma_partition_sizes(tasks.drop_last(), present.subrange(0, n as int));
    }
}

/// Re-running on a tree whose every destination exists (as after a complete
/// first run) moves nothing: no task is pending, every task counts as skipped,
/// the run has nothing to do, and its summary shows zero processed items.
pub proof fn lemma_rerun_skips_everything(tasks: Seq<MoveTaskView>, present: Seq<bool>)
    requires
        present.len() == tasks.len(),
        tasks.len() <= usize::MAX,
        forall|i: int| 0 <= i < present.len() ==> #[trigger] present[i],
    ensures
        pending_of(tasks, present).len() == 0,
        present_count(present) == tasks.len(),
        tasks.len() > 0 ==> plan_of(tasks.len(), 0) == ScanPlan::NothingToDo,
        summary_of(tasks.len() as usize, tasks.len() as usize, Seq::empty()).processed == 0,
        summary_of(tasks.len() as usize, tasks.len() as usize, Seq::empty()).skipped
            == tasks.len(),
        summary_of(tasks.len() as usize, tasks.len() as usize, Seq::empty()).failed == 0,
{
    lemma_partition_sizes(tasks, present);
    lemma_pending_were_absent(tasks, present);
    let pend = pending_of(tasks, present);
    if pend.len() > 0 {
        let j = choose|j: int|
            #![trigger tasks[j]]
            0 <= j < tasks.len() && !present[j] && pend[0] == tasks[j];
        assert(present[j]);
    }
}

/// A run with no pre-existing destinations in which every dispatched task
/// succeeds processes every enumerated entry, skips none, fails none, reports
/// success and cleans up.
pub proof fn lemma_clean_run_processes_everything(
    tasks: Seq<MoveTaskView>,
    present: Seq<bool>,
    outcomes: Seq<Outcome>,
)
    requires
        present.len() == tasks.len(),
        tasks.len() <= usize::MAX,
        forall|i: int| 0 <= i < present.len() ==> !#[trigger] present[i],
        outcomes.len() == pending_of(tasks, present).len(),
        forall|i: int| 0 <= i < outcomes.len() ==> #[trigger] outcomes[i] == Outcome::Success,
    ensures
        pending_of(tasks, present) == tasks,
        present_count(present) == 0,
        summary_of(tasks.len() as usize, 0, outcomes) == (MigrationSummary {
            total: tasks.len() as usize,
            skipped: 0,
            processed: tasks.len() as usize,
            failed: 0,
            first_failure: None,
        }),
        cleans_up(summary_of(tasks.len() as usize, 0, outcomes)),
        conclusion_of(summary_of(tasks.len() as usize, 0, outcomes)) is Ok,
    decreases tasks.len(),
{
    lemma_all_pending(tasks, present);
    lemma_partition_sizes(tasks, present);
    lemma_all_success(outcomes);
    lemma_counts_partition(outcomes);
    lemma_first_failure_is_first(outcomes);
}

/// With every destination absent, the filter keeps every task.
pub proof fn lemma_all_pending(tasks: Seq<MoveTaskView>, present: Seq<bool>)
    requires
        present.len() == tasks.len(),
        forall|i: int| 0 <= i < present.len() ==> !#[trigger] present[i],
    ensures
        pending_of(tasks, present) == tasks,
    decreases tasks.len(),
{
    if tasks.len() > 0 {
        let n = tasks.len() - 1;
        let rest_p = present.subrange(0, n as int);
        assert(forall|i: int| 0 <= i < rest_p.len() ==> rest_p[i] == present[i]);
        lemma_all_pending(tasks.drop_last(), rest_p);
        assert(tasks.drop_last().push(tasks[n as int]) =~= tasks);
    }
}

/// Outcomes that are all successes count as processed only.
pub proof fn lemma_all_success(outcomes: Seq<Outcome>)
    requires
        forall|i: int| 0 <= i < outcomes.len() ==> #[trigger] outcomes[i] == Outcome::Success,
    ensures
        success_count(outcomes) == outcomes.len(),
        skip_count(outcomes) == 0,
        failure_count(outcomes) == 0,
    decreases outcomes.len(),
{
    if outcomes.len() > 0 {
        let rest = outcomes.drop_last();
        assert(forall|i: int| 0 <= i < rest.len() ==> rest[i] == outcomes[i]);
        lemma_all_success(rest);
    }
}

/// A destination that exists at filter time is never handed to the movers,
/// and is counted among the skipped tasks.
pub proof fn lemma_present_destination_not_dispatched(
    tasks: Seq<MoveTaskView>,
    present: Seq<bool>,
    i: int,
)
    requires
        present.len() == tasks.len(),
        0 <= i < tasks.len(),
        present[i],
        forall|a: int, b: int|
            0 <= a < tasks.len() && 0 <= b < tasks.len() && a != b ==> (#[trigger] tasks[a]).dst
                != (#[trigger] tasks[b]).dst,
    ensures
        forall|k: int|
            0 <= k < pending_of(tasks, present).len() ==> (#[trigger] pending_of(
                tasks,
                present,
            )[k]).dst != tasks[i].dst,
        present_count(present) >= 1,
{
    lemma_pending_were_absent(tasks, present);
    lemma_present_counted(present, i);
}

/// A present destination adds one to the count of present destinations.
pub proof fn lemma_present_counted(present: Seq<bool>, i: int)
    requires
        0 <= i < present.len(),
        present[i],
    ensures
        present_count(present) >= 1,
    decreases present.len(),
{
    if i < present.len() - 1 {
        assert(present.drop_last()[i] == present[i]);
        lemma_present_counted(present.drop_last(), i);
    }
}

/// An existing but empty source tree gives no tasks; the run only makes sure
/// the destination root exists, and reports zero items.
pub proof fn lemma_empty_source(src_root: Seq<Seq<char>>, dst_root: Seq<Seq<char>>)
    ensures
        tasks_for(Seq::empty(), src_root, dst_root).len() == 0,
        plan_of(0, 0) == ScanPlan::EnsureDestinationRoot,
        summary_of(0, 0, Seq::empty()) == (MigrationSummary {
            total: 0,
            skipped: 0,
            processed: 0,
            failed: 0,
            first_failure: None,
        }),
        conclusion_of(summary_of(0, 0, Seq::empty())) is Ok,
{
}

/// The events of a file whose same-volume move fails: the destination is
/// absent, the parent is made, the rename fails, the destination is still
/// absent, the copy reports `copied`, and the source deletion reports
/// `removed`.
pub open spec fn fallback_events(copied: CopyResult, removed: bool) -> Seq<MoveEvent> {
    seq![
        MoveEvent::DestinationPresent(false),
        MoveEvent::SourceKind(EntryKind::File),
        MoveEvent::DirectoryCreated(CreateResult::Created),
        MoveEvent::DestinationPresent(false),
        MoveEvent::Renamed(false),
        MoveEvent::DestinationPresent(false),
        MoveEvent::Copied(copied),
        MoveEvent::SourceRemoved(removed),
    ]
}

/// When the same-volume move fails, the mover checks the destination again,
/// copies, and then deletes the source; the task succeeds whether or not the
/// deletion worked. A copy that finds the destination present ends as skipped;
/// any other failed copy is a transfer failure.
pub proof fn lemma_cross_volume_fallback(removed: bool)
    ensures
        action_of(run_events(MoveStage::FirstCheck, fallback_events(CopyResult::Copied, removed).take(5)))
            == MoveAction::CheckDestination,
        action_of(run_events(MoveStage::FirstCheck, fallback_events(CopyResult::Copied, removed).take(6)))
            == MoveAction::Copy,
        action_of(run_events(MoveStage::FirstCheck, fallback_events(CopyResult::Copied, removed).take(7)))
            == MoveAction::RemoveSource,
        run_events(MoveStage::FirstCheck, fallback_events(CopyResult::Copied, removed))
            == MoveStage::Finished(Outcome::Success),
        run_events(MoveStage::FirstCheck, fallback_events(CopyResult::DestinationExists, removed).take(7))
            == MoveStage::Finished(Outcome::Skipped),
        run_events(MoveStage::FirstCheck, fallback_events(CopyResult::Failed, removed).take(7))
            == MoveStage::Finished(Outcome::Failure(FailureCause::Transfer)),
{
    lemma_fallback_steps(CopyResult::Copied, removed);
    lemma_fallback_steps(CopyResult::DestinationExists, removed);
    lemma_fallback_steps(CopyResult::Failed, removed);
}

/// The stages that the fallback events pass through, one prefix at a time.
proof fn lemma_fallback_steps(copied: CopyResult, removed: bool)
    ensures
        run_events(MoveStage::FirstCheck, fallback_events(copied, removed).take(5))
            == MoveStage::FallbackCheck,
        run_events(MoveStage::FirstCheck, fallback_events(copied, removed).take(6))
            == MoveStage::Copying,
        run_events(MoveStage::FirstCheck, fallback_events(copied, removed).take(7))
            == next_stage(MoveStage::Copying, MoveEvent::Copied(copied)),
        copied == CopyResult::Copied ==> run_events(MoveStage::FirstCheck, fallback_events(copied, removed))
            == MoveStage::Finished(Outcome::Success),
{
    let ev = fallback_events(copied, removed);
    let start = MoveStage::FirstCheck;
    assert(ev.take(1).drop_last() =~= ev.take(0));
    assert(ev.take(0) =~= Seq::<MoveEvent>::empty());
    assert(ev[0] == MoveEvent::DestinationPresent(false));
    assert(run_events(start, ev.take(0)) == start);
    assert(ev.take(1).last() == ev[0]);
    assert(run_events(start, ev.take(1)) == MoveStage::Classify);
    assert(ev.take(2).drop_last() =~= ev.take(1));
    assert(run_events(start, ev.take(2)) == MoveStage::MakingParent);
    assert(ev.take(3).drop_last() =~= ev.take(2));
    assert(run_events(start, ev.take(3)) == MoveStage::SecondCheck);
    assert(ev.take(4).drop_last() =~= ev.take(3));
    assert(run_events(start, ev.take(4)) == MoveStage::Renaming);
    assert(ev.take(5).drop_last() =~= ev.take(4));
    assert(run_events(start, ev.take(5)) == MoveStage::FallbackCheck);
    assert(ev.take(6).drop_last() =~= ev.take(5));
    assert(run_events(start, ev.take(6)) == MoveStage::Copying);
    assert(ev.take(7).drop_last() =~= ev.take(6));
    assert(run_events(start, ev.take(7)) == next_stage(MoveStage::Copying, MoveEvent::Copied(copied)));
    assert(ev.drop_last() =~= ev.take(7));
}

/// When exactly one dispatched task fails, the summary counts one failure,
/// every other task ends as a success or a skip, the run reports that very
/// failure, and the source root is not cleaned up.
pub proof fn lemma_single_failure_reported(
    total: usize,
    filter_skipped: usize,
    outcomes: Seq<Outcome>,
    k: int,
    cause: FailureCause,
)
    requires
        filter_skipped + outcomes.len() == total,
        0 <= k < outcomes.len(),
        outcomes[k] == Outcome::Failure(cause),
        forall|j: int| 0 <= j < outcomes.len() && j != k ==> !(#[trigger] outcomes[j] is Failure),
    ensures
        summary_of(total, filter_skipped, outcomes).failed == 1,
        success_count(outcomes) + skip_count(outcomes) == outcomes.len() - 1,
        summary_of(total, filter_skipped, outcomes).first_failure == Some(
            TaskFailure { index: k as usize, cause },
        ),
        conclusion_of(summary_of(total, filter_skipped, outcomes)) == Err::<MigrationSummary, MigrationError>(
            MigrationError::Task(TaskFailure { index: k as usize, cause }),
        ),
        !cleans_up(summary_of(total, filter_skipped, outcomes)),
{
    lemma_one_failure_count(outcomes, k);
    lemma_counts_partition(outcomes);
    lemma_first_failure_is_first(outcomes);
    let f = first_failure(outcomes).unwrap();
    assert(f.index == k as usize) by {
        if (f.index as int) < k {
            assert(outcomes[k] is Failure);
        } else if (f.index as int) > k {
            assert(outcomes[k] is Failure);
        }
    }
}

/// Exactly one failed outcome counts as one failure.
pub proof fn lemma_one_failure_count(outcomes: Seq<Outcome>, k: int)
    requires
        0 <= k < outcomes.len(),
        outcomes[k] is Failure,
        forall|j: int| 0 <= j < outcomes.len() && j != k ==> !(#[trigger] outcomes[j] is Failure),
    ensures
        failure_count(outcomes) == 1,
    decreases outcomes.len(),
{
    let rest = outcomes.drop_last();
    assert(forall|j: int| 0 <= j < rest.len() ==> rest[j] == outcomes[j]);
    if k == outcomes.len() - 1 {
        lemma_no_failures_count_zero(rest);
    } else {
        lemma_one_failure_count(rest, k);
    }
}

/// Outcomes without a failure count zero failures.
pub proof fn lemma_no_failures_count_zero(outcomes: Seq<Outcome>)
    requires
        forall|j: int| 0 <= j < outcomes.len() ==> !(#[trigger] outcomes[j] is Failure),
    ensures
        failure_count(outcomes) == 0,
    decreases outcomes.len(),
{
    if outcomes.len() > 0 {
        let rest = outcomes.drop_last();
        assert(forall|j: int| 0 <= j < rest.len() ==> rest[j] == outcomes[j]);
        lemma_no_failures_count_zero(rest);
    }
}

} // verus!
