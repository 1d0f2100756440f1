//! Aggregation of per-task outcomes into a run summary, the decision that
//! follows the filter, and the source-cleanup policy.
use vstd::prelude::*;
use crate::error::{FailureCause, MigrationError, TaskFailure};
use crate::mover::Outcome;

verus! {

/// How many outcomes are successes.
pub open spec fn success_count(s: Seq<Outcome>) -> nat
    decreases s.len(),
{
    if s.len() == 0 {
        0
    } else {
        success_count(s.drop_last()) + if s.last() == Outcome::Success {
            1nat
        } else {
            0nat
        }
    }
}

/// How many outcomes are skips.
pub open spec fn skip_count(s: Seq<Outcome>) -> nat
    decreases s.len(),
{
    if s.len() == 0 {
        0
    } else {
        skip_count(s.drop_last()) + if s.last() == Outcome::Skipped {
            1nat
        } else {
            0nat
        }
    }
}

/// How many outcomes are failures.
pub open spec fn failure_count(s: Seq<Outcome>) -> nat
    decreases s.len(),
{
    if s.len() == 0 {
        0
    } else {
        failure_count(s.drop_last()) + if s.last() is Failure {
            1nat
        } else {
            0nat
        }
    }
}

/// The first failure when the outcomes are scanned in dispatch order.
pub open spec fn first_failure(s: Seq<Outcome>) -> Option<TaskFailure>
    decreases s.len(),
{
    if s.len() == 0 {
        None
    } else {
        match first_failure(s.drop_last()) {
            Some(f) => Some(f),
            None => match s.last() {
                Outcome::Failure(c) => Some(TaskFailure { index: (s.len() - 1) as usize, cause: c }),
                _ => None,
            },
        }
    }
}

/// Aggregate counts of a run, and its first failure in dispatch order.
#[derive(Clone, Copy, Debug, PartialEq, Eq, Structural)]
pub struct MigrationSummary {
    /// Every task enumerated.
    pub total: usize,
    /// Tasks whose destination already existed, at filter time or when the
    /// mover looked again.
    pub skipped: usize,
    /// Tasks that completed with success.
    pub processed: usize,
    /// Tasks that failed.
    pub failed: usize,
    pub first_failure: Option<TaskFailure>,
}

/// The summary of a run of `total` tasks, of which the filter skipped
/// `filter_skipped` and the dispatched ones ended with `outcomes`.
pub open spec fn summary_of(total: usize, filter_skipped: usize, outcomes: Seq<Outcome>) -> MigrationSummary {
    MigrationSummary {
        total,
        skipped: (filter_skipped + skip_count(outcomes)) as usize,
        processed: success_count(outcomes) as usize,
        failed: failure_count(outcomes) as usize,
        first_failure: first_failure(outcomes),
    }
}

/// What the host does once the tasks have been filtered.
#[derive(Clone, Copy, Debug, PartialEq, Eq, Structural)]
pub enum ScanPlan {
    /// The source tree is empty: make sure the destination root exists.
    EnsureDestinationRoot,
    /// Every destination already exists: nothing to move.
    NothingToDo,
    /// Dispatch the pending tasks to the worker pool.
    Dispatch,
}

/// The plan for `total` enumerated tasks of which `pending` remain.
pub open spec fn plan_of(total: nat, pending: nat) -> ScanPlan {
    if total == 0 {
        ScanPlan::EnsureDestinationRoot
    } else if pending == 0 {
        ScanPlan::NothingToDo
    } else {
        ScanPlan::Dispatch
    }
}

/// Decides what follows the filter.
pub fn plan_dispatch(total: usize, pending: usize) -> (r: ScanPlan)
    ensures
        r == plan_of(total as nat, pending as nat),
{
    if total == 0 {
        ScanPlan::EnsureDestinationRoot
    } else if pending == 0 {
        ScanPlan::NothingToDo
    } else {
        ScanPlan::Dispatch
    }
}

/// Each outcome is a success, a skip or a failure.
pub proof fn lemma_counts_partition(s: Seq<Outcome>)
    ensures
        success_count(s) + skip_count(s) + failure_count(s) == s.len(),
    decreases s.len(),
{
    if s.len() > 0 {
        lemma_counts_partition(s.drop_last());
    }
}

/// A found first failure names a failed outcome, and none comes before it.
pub proof fn lemma_first_failure_is_first(s: Seq<Outcome>)
    requires
        s.len() <= usize::MAX,
    ensures
        first_failure(s) matches Some(f) ==> f.index < s.len() && s[f.index as int]
            == Outcome::Failure(f.cause) && forall|j: int|
            0 <= j < f.index ==> !(#[trigger] s[j] is Failure),
        first_failure(s) is None <==> failure_count(s) == 0,
    decreases s.len(),
{
    if s.len() > 0 {
        lemma_first_failure_is_first(s.drop_last());
        if let Some(f) = first_failure(s.drop_last()) {
            assert(forall|j: int| 0 <= j < f.index ==> s[j] == s.drop_last()[j]);
        } else {
            assert(forall|j: int| 0 <= j < s.len() - 1 ==> s[j] == s.drop_last()[j]);
            if failure_count(s.drop_last()) == 0 {
                lemma_no_failure_count(s.drop_last());
            }
        }
    }
}

/// Without counted failures, no outcome is a failure.
pub proof fn lemma_no_failure_count(s: Seq<Outcome>)
    requires
        failure_count(s) == 0,
    ensures
        forall|j: int| 0 <= j < s.len() ==> !(#[trigger] s[j] is Failure),
    decreases s.len(),
{
    if s.len() > 0 {
        lemma_no_failure_count(s.drop_last());
        assert(forall|j: int| 0 <= j < s.len() - 1 ==> s[j] == s.drop_last()[j]);
    }
}

/// Aggregates the outcomes of the dispatched tasks, given in dispatch order,
/// with the `filter_skipped` tasks that the filter dropped. `total` is the
/// number of tasks enumerated.
pub fn summarize(total: usize, filter_skipped: usize, outcomes: &Vec<Outcome>) -> (r:
    MigrationSummary)
    requires
        filter_skipped + outcomes.len() == total,
    ensures
        r == summary_of(total, filter_skipped, outcomes@),
        r.total == total,
        r.processed == success_count(outcomes@),
        r.skipped == filter_skipped + skip_count(outcomes@),
        r.failed == failure_count(outcomes@),
        r.first_failure == first_failure(outcomes@),
        r.skipped + r.processed + r.failed == r.total,
{
    let mut processed: usize = 0;
    let mut skipped: usize = 0;
    let mut failed: usize = 0;
    let mut first: Option<TaskFailure> = None;
    let mut i: usize = 0;
    while i < outcomes.len()
        invariant
            i <= outcomes.len(),
            filter_skipped + outcomes.len() == total,
            processed == success_count(outcomes@.subrange(0, i as int)),
            skipped == skip_count(outcomes@.subrange(0, i as int)),
            failed == failure_count(outcomes@.subrange(0, i as int)),
            first == first_failure(outcomes@.subrange(0, i as int)),
            processed + skipped + failed == i,
        decreases outcomes.len() - i,
    {
        let ghost next = outcomes@.subrange(0, i + 1);
        assert(next.drop_last() =~= outcomes@.subrange(0, i as int));
        match outcomes[i] {
            Outcome::Success => {
                processed += 1;
            },
            Outcome::Skipped => {
                skipped += 1;
            },
            Outcome::Failure(c) => {
                failed += 1;
                if first.is_none() {
                    first = Some(TaskFailure { index: i, cause: c });
                }
            },
        }
        i += 1;
    }
    assert(outcomes@.subrange(0, outcomes.len() as int) =~= outcomes@);
    MigrationSummary {
        total,
        skipped: filter_skipped + skipped,
        processed,
        failed,
        first_failure: first,
    }
}

/// The result a run reports: its first failure in dispatch order, if any.
pub open spec fn conclusion_of(s: MigrationSummary) -> Result<MigrationSummary, MigrationError> {
    match s.first_failure {
        Some(f) => Err(MigrationError::Task(f)),
        None => Ok(s),
    }
}

/// Turns a summary into the run's result: the first failure in dispatch order
/// is the error; later failures are only counted.
pub fn conclude(s: MigrationSummary) -> (r: Result<MigrationSummary, MigrationError>)
    ensures
        r == conclusion_of(s),
{
    match s.first_failure {
        Some(f) => Err(MigrationError::Task(f)),
        None => Ok(s),
    }
}

/// The source root is cleaned up only after a run without failures.
pub open spec fn cleans_up(s: MigrationSummary) -> bool {
    s.failed == 0 && s.first_failure is None
}

/// Whether to try removing the source root after the run.
pub fn should_clean_up(s: &MigrationSummary) -> (r: bool)
    ensures
        r == cleans_up(*s),
{
    s.failed == 0 && s.first_failure.is_none()
}

/// What removing the (hopefully empty) source root reported.
#[derive(Clone, Copy, Debug, PartialEq, Eq, Structural)]
pub enum RemovalResult {
    Removed,
    NotFound,
    NotEmpty,
    OtherError,
}

/// What the cleanup amounts to.
#[derive(Clone, Copy, Debug, PartialEq, Eq, Structural)]
pub enum CleanupReport {
    /// The source root is gone.
    Removed,
    /// The source root is left in place, silently.
    Kept,
    /// The source root could not be removed for an unexpected reason: the
    /// host shows a warning; the run still succeeds.
    Warning,
}

/// Classifies the result of removing the source root: "not found" and "not
/// empty" are silent; any other error is a warning, never fatal.
pub fn cleanup_report(r: RemovalResult) -> (c: CleanupReport)
    ensures
        c == (match r {
            RemovalResult::Removed => CleanupReport::Removed,
            RemovalResult::NotFound => CleanupReport::Kept,
            RemovalResult::NotEmpty => CleanupReport::Kept,
            RemovalResult::OtherError => CleanupReport::Warning,
        }),
{
    match r {
        RemovalResult::Removed => CleanupReport::Removed,
        RemovalResult::NotFound => CleanupReport::Kept,
        RemovalResult::NotEmpty => CleanupReport::Kept,
        RemovalResult::OtherError => CleanupReport::Warning,
    }
}

} // verus!
