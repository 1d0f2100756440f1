use treemove::error::{FailureCause, MigrationError, SourceProblem, TaskFailure};
use treemove::long_path::long_path_units;
use treemove::mover::{
    CopyResult, CreateResult, EntryKind, MoveAction, MoveEvent, MoveStage, Outcome,
};
use treemove::path::FsPath;
use treemove::summary::{
    cleanup_report, conclude, plan_dispatch, should_clean_up, summarize, CleanupReport,
    MigrationSummary, RemovalResult, ScanPlan,
};
use treemove::task::{build_tasks, check_source, partition_pending, MoveTask};

fn p(parts: &[&str]) -> FsPath {
    FsPath { parts: parts.iter().map(|s| s.to_string()).collect() }
}

fn parts(x: &FsPath) -> Vec<&str> {
    x.parts.iter().map(|s| s.as_str()).collect()
}

/// Feeds events to a fresh task and returns the actions issued, the first
/// one included, and the final stage.
fn drive(events: &[MoveEvent]) -> (Vec<MoveAction>, MoveStage) {
    let mut stage = MoveStage::start();
    let mut actions = vec![stage.action()];
    for e in events {
        stage.advance(*e);
        actions.push(stage.action());
    }
    (actions, stage)
}

fn scenario_tasks() -> Vec<MoveTask> {
    let src = p(&["/", "src"]);
    let dst = p(&["/", "dst"]);
    let entries = vec![
        p(&["/", "src", "a"]),
        p(&["/", "src", "a", "x.txt"]),
        p(&["/", "src", "b.txt"]),
    ];
    build_tasks(&src, &dst, &entries).unwrap()
}

#[test]
fn relocate_maps_relative_path() {
    let q = p(&["/", "src", "a", "x.txt"]).relocate(&p(&["/", "src"]), &p(&["/", "mnt", "dst"]));
    assert_eq!(parts(&q.unwrap()), vec!["/", "mnt", "dst", "a", "x.txt"]);
}

#[test]
fn relocate_rejects_root_and_outsiders() {
    let root = p(&["/", "src"]);
    let to = p(&["/", "dst"]);
    assert!(p(&["/", "src"]).relocate(&root, &to).is_none());
    assert!(p(&["/", "other", "a"]).relocate(&root, &to).is_none());
    assert!(p(&["/"]).relocate(&root, &to).is_none());
}

#[test]
fn duplicate_keeps_components() {
    let a = p(&["x", "y"]);
    assert_eq!(parts(&a.duplicate()), vec!["x", "y"]);
}

#[test]
fn source_must_exist_and_be_directory() {
    assert_eq!(check_source(true, true), Ok(()));
    assert_eq!(
        check_source(false, false),
        Err(MigrationError::InvalidSource(SourceProblem::Missing))
    );
    assert_eq!(
        check_source(true, false),
        Err(MigrationError::InvalidSource(SourceProblem::NotADirectory))
    );
}

#[test]
fn build_tasks_pairs_each_entry() {
    let ts = scenario_tasks();
    assert_eq!(ts.len(), 3);
    assert_eq!(parts(&ts[0].src), vec!["/", "src", "a"]);
    assert_eq!(parts(&ts[0].dst), vec!["/", "dst", "a"]);
    assert_eq!(parts(&ts[1].dst), vec!["/", "dst", "a", "x.txt"]);
    assert_eq!(parts(&ts[2].dst), vec!["/", "dst", "b.txt"]);
}

#[test]
fn build_tasks_fails_on_entry_outside_root() {
    let entries = vec![p(&["/", "src", "a"]), p(&["/", "elsewhere"])];
    let r = build_tasks(&p(&["/", "src"]), &p(&["/", "dst"]), &entries);
    assert_eq!(r.err(), Some(MigrationError::Enumeration));
}

#[test]
fn scenario_three_entries_into_empty_destination() {
    let ts = scenario_tasks();
    let part = partition_pending(&ts, &vec![false, false, false]);
    assert_eq!(part.pending.len(), 3);
    assert_eq!(part.skipped, 0);
    assert_eq!(plan_dispatch(3, 3), ScanPlan::Dispatch);
    let dir = drive(&[
        MoveEvent::DestinationPresent(false),
        MoveEvent::SourceKind(EntryKind::Directory),
        MoveEvent::DirectoryCreated(CreateResult::Created),
    ]);
    let file = [
        MoveEvent::DestinationPresent(false),
        MoveEvent::SourceKind(EntryKind::File),
        MoveEvent::DirectoryCreated(CreateResult::AlreadyExists),
        MoveEvent::DestinationPresent(false),
        MoveEvent::Renamed(true),
    ];
    let x = drive(&file);
    let b = drive(&file);
    let outcomes: Vec<Outcome> =
        vec![dir.1.outcome().unwrap(), x.1.outcome().unwrap(), b.1.outcome().unwrap()];
    let s = summarize(3, part.skipped, &outcomes);
    assert_eq!(
        s,
        MigrationSummary { total: 3, skipped: 0, processed: 3, failed: 0, first_failure: None }
    );
    assert!(should_clean_up(&s));
    assert_eq!(conclude(s), Ok(s));
}

#[test]
fn rerun_skips_everything() {
    let ts = scenario_tasks();
    let part = partition_pending(&ts, &vec![true, true, true]);
    assert_eq!(part.pending.len(), 0);
    assert_eq!(part.skipped, 3);
    assert_eq!(plan_dispatch(3, 0), ScanPlan::NothingToDo);
    let s = summarize(3, 3, &vec![]);
    assert_eq!(s.processed, 0);
    assert_eq!(s.skipped, 3);
}

#[test]
fn present_destination_is_skipped_not_failed() {
    let ts = scenario_tasks();
    let part = partition_pending(&ts, &vec![false, true, false]);
    assert_eq!(part.skipped, 1);
    assert_eq!(part.pending.len(), 2);
    assert_eq!(parts(&part.pending[0].dst), vec!["/", "dst", "a"]);
    assert_eq!(parts(&part.pending[1].dst), vec!["/", "dst", "b.txt"]);
    let s = summarize(3, part.skipped, &vec![Outcome::Success, Outcome::Success]);
    assert_eq!(s.skipped, 1);
    assert_eq!(s.failed, 0);
}

#[test]
fn mover_skips_when_destination_present() {
    let (actions, stage) = drive(&[MoveEvent::DestinationPresent(true)]);
    assert_eq!(actions, vec![MoveAction::CheckDestination, MoveAction::Stop]);
    assert_eq!(stage.outcome(), Some(Outcome::Skipped));
}

#[test]
fn mover_skips_when_destination_appears_before_rename() {
    let (_, stage) = drive(&[
        MoveEvent::DestinationPresent(false),
        MoveEvent::SourceKind(EntryKind::File),
        MoveEvent::DirectoryCreated(CreateResult::Created),
        MoveEvent::DestinationPresent(true),
    ]);
    assert_eq!(stage.outcome(), Some(Outcome::Skipped));
}

#[test]
fn empty_source_ensures_destination_root() {
    let r = build_tasks(&p(&["/", "src"]), &p(&["/", "dst"]), &vec![]).unwrap();
    assert_eq!(r.len(), 0);
    assert_eq!(plan_dispatch(0, 0), ScanPlan::EnsureDestinationRoot);
    let s = summarize(0, 0, &vec![]);
    assert_eq!(
        s,
        MigrationSummary { total: 0, skipped: 0, processed: 0, failed: 0, first_failure: None }
    );
}

fn fallback(copied: CopyResult, removed: bool) -> (Vec<MoveAction>, MoveStage) {
    drive(&[
        MoveEvent::DestinationPresent(false),
        MoveEvent::SourceKind(EntryKind::File),
        MoveEvent::DirectoryCreated(CreateResult::Created),
        MoveEvent::DestinationPresent(false),
        MoveEvent::Renamed(false),
        MoveEvent::DestinationPresent(false),
        MoveEvent::Copied(copied),
        MoveEvent::SourceRemoved(removed),
    ])
}

#[test]
fn cross_volume_fallback_copies_then_removes() {
    let (actions, stage) = fallback(CopyResult::Copied, false);
    assert_eq!(
        actions,
        vec![
            MoveAction::CheckDestination,
            MoveAction::CheckSourceKind,
            MoveAction::CreateParent,
            MoveAction::CheckDestination,
            MoveAction::Rename,
            MoveAction::CheckDestination,
            MoveAction::Copy,
            MoveAction::RemoveSource,
            MoveAction::Stop,
        ]
    );
    assert_eq!(stage.outcome(), Some(Outcome::Success));
    assert_eq!(fallback(CopyResult::Copied, true).1.outcome(), Some(Outcome::Success));
}

#[test]
fn fallback_copy_outcomes() {
    assert_eq!(fallback(CopyResult::DestinationExists, true).1.outcome(), Some(Outcome::Skipped));
    assert_eq!(
        fallback(CopyResult::Failed, true).1.outcome(),
        Some(Outcome::Failure(FailureCause::Transfer))
    );
    let (_, stage) = drive(&[
        MoveEvent::DestinationPresent(false),
        MoveEvent::SourceKind(EntryKind::File),
        MoveEvent::DirectoryCreated(CreateResult::Created),
        MoveEvent::DestinationPresent(false),
        MoveEvent::Renamed(false),
        MoveEvent::DestinationPresent(true),
    ]);
    assert_eq!(stage.outcome(), Some(Outcome::Skipped));
}

#[test]
fn directory_creation_failures() {
    let (_, d) = drive(&[
        MoveEvent::DestinationPresent(false),
        MoveEvent::SourceKind(EntryKind::Directory),
        MoveEvent::DirectoryCreated(CreateResult::Failed),
    ]);
    assert_eq!(d.outcome(), Some(Outcome::Failure(FailureCause::DirectoryCreate)));
    let (_, f) = drive(&[
        MoveEvent::DestinationPresent(false),
        MoveEvent::SourceKind(EntryKind::File),
        MoveEvent::DirectoryCreated(CreateResult::Failed),
    ]);
    assert_eq!(f.outcome(), Some(Outcome::Failure(FailureCause::DirectoryCreate)));
    let (_, e) = drive(&[
        MoveEvent::DestinationPresent(false),
        MoveEvent::SourceKind(EntryKind::Directory),
        MoveEvent::DirectoryCreated(CreateResult::AlreadyExists),
    ]);
    assert_eq!(e.outcome(), Some(Outcome::Success));
}

#[test]
fn special_entry_is_noop_success() {
    let (actions, s) = drive(&[
        MoveEvent::DestinationPresent(false),
        MoveEvent::SourceKind(EntryKind::Other),
    ]);
    assert_eq!(s.outcome(), Some(Outcome::Success));
    assert_eq!(actions.last(), Some(&MoveAction::Stop));
}

#[test]
fn unexpected_event_fails_the_task() {
    let (_, s) = drive(&[MoveEvent::Renamed(true)]);
    assert_eq!(s.outcome(), Some(Outcome::Failure(FailureCause::Transfer)));
    let mut done = MoveStage::Finished(Outcome::Skipped);
    done.advance(MoveEvent::DestinationPresent(false));
    assert_eq!(done.outcome(), Some(Outcome::Skipped));
}

#[test]
fn single_failure_is_reported_and_blocks_cleanup() {
    let outcomes = vec![
        Outcome::Success,
        Outcome::Skipped,
        Outcome::Failure(FailureCause::Transfer),
        Outcome::Success,
    ];
    let s = summarize(5, 1, &outcomes);
    assert_eq!(s.failed, 1);
    assert_eq!(s.processed, 2);
    assert_eq!(s.skipped, 2);
    assert!(!should_clean_up(&s));
    assert_eq!(
        conclude(s),
        Err(MigrationError::Task(TaskFailure { index: 2, cause: FailureCause::Transfer }))
    );
}

#[test]
fn first_failure_follows_dispatch_order() {
    let outcomes = vec![
        Outcome::Success,
        Outcome::Failure(FailureCause::DirectoryCreate),
        Outcome::Failure(FailureCause::Transfer),
    ];
    let s = summarize(3, 0, &outcomes);
    assert_eq!(s.failed, 2);
    assert_eq!(
        s.first_failure,
        Some(TaskFailure { index: 1, cause: FailureCause::DirectoryCreate })
    );
}

#[test]
fn cleanup_reports() {
    assert_eq!(cleanup_report(RemovalResult::Removed), CleanupReport::Removed);
    assert_eq!(cleanup_report(RemovalResult::NotFound), CleanupReport::Kept);
    assert_eq!(cleanup_report(RemovalResult::NotEmpty), CleanupReport::Kept);
    assert_eq!(cleanup_report(RemovalResult::OtherError), CleanupReport::Warning);
}

#[test]
fn long_path_prefix_for_absolute_paths() {
    let path: Vec<u16> = "C:\\a".encode_utf16().collect();
    let abs = long_path_units(&path, true);
    let expected: Vec<u16> = "\\\\?\\C:\\a".encode_utf16().chain(std::iter::once(0)).collect();
    assert_eq!(abs, expected);
    let rel: Vec<u16> = "a\\b".encode_utf16().collect();
    let out = long_path_units(&rel, false);
    let expected_rel: Vec<u16> = "a\\b".encode_utf16().chain(std::iter::once(0)).collect();
    assert_eq!(out, expected_rel);
}

#[test]
fn progress_counts_only_successes() {
    assert!(Outcome::Success.counts_as_progress());
    assert!(!Outcome::Skipped.counts_as_progress());
    assert!(!Outcome::Failure(FailureCause::Transfer).counts_as_progress());
}

#[test]
fn error_descriptions() {
    assert_eq!(
        MigrationError::InvalidSource(SourceProblem::Missing).describe(),
        "Source directory does not exist"
    );
    assert_eq!(MigrationError::Enumeration.describe(), "Failed to read the source tree");
    let t = MigrationError::Task(TaskFailure { index: 0, cause: FailureCause::Transfer });
    assert_eq!(t.describe(), "Failed to transfer a file");
}
