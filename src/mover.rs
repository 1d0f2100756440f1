//! The single-item mover, as a state machine: the host performs each action
//! on the filesystem and reports what it observed as an event.
use vstd::prelude::*;
use crate::error::FailureCause;

verus! {

/// The type of a source entry, as a stat call reports it.
#[derive(Clone, Copy, Debug, PartialEq, Eq, Structural)]
pub enum EntryKind {
    Directory,
    File,
    /// Neither a file nor a directory (a special file, a dangling link).
    Other,
}

/// What creating a directory (with its parents) reported.
#[derive(Clone, Copy, Debug, PartialEq, Eq, Structural)]
pub enum CreateResult {
    Created,
    AlreadyExists,
    Failed,
}

/// What copying the source file's bytes to the destination reported.
#[derive(Clone, Copy, Debug, PartialEq, Eq, Structural)]
pub enum CopyResult {
    Copied,
    /// The copy failed because the destination exists by now.
    DestinationExists,
    Failed,
}

/// The terminal state of one task.
#[derive(Clone, Copy, Debug, PartialEq, Eq, Structural)]
pub enum Outcome {
    Success,
    /// The destination already existed; nothing was written.
    Skipped,
    Failure(FailureCause),
}

impl Outcome {
    /// Whether the outcome advances the progress display: only items that
    /// were actually handled count, skips do not.
    pub fn counts_as_progress(&self) -> (r: bool)
        ensures
            r == (*self == Outcome::Success),
    {
        match self {
            Outcome::Success => true,
            _ => false,
        }
    }
}

/// The filesystem step that a task calls for.
#[derive(Clone, Copy, Debug, PartialEq, Eq, Structural)]
pub enum MoveAction {
    /// Report whether the destination path exists (of any type).
    CheckDestination,
    /// Report the type of the source entry.
    CheckSourceKind,
    /// Create the destination directory, with its parents.
    CreateDirectory,
    /// Create the parent directory of the destination, with its parents.
    CreateParent,
    /// Rename the source file onto the destination (same-volume move).
    Rename,
    /// Copy the source file's bytes to the destination.
    Copy,
    /// Delete the source file (best effort).
    RemoveSource,
    /// Nothing more: the task has reached its outcome.
    Stop,
}

/// What the host observed when it performed the pending action.
#[derive(Clone, Copy, Debug, PartialEq, Eq, Structural)]
pub enum MoveEvent {
    DestinationPresent(bool),
    SourceKind(EntryKind),
    DirectoryCreated(CreateResult),
    /// Whether the rename succeeded.
    Renamed(bool),
    Copied(CopyResult),
    /// Whether the source file was deleted.
    SourceRemoved(bool),
}

/// Where a task stands.
#[derive(Clone, Copy, Debug, PartialEq, Eq, Structural)]
pub enum MoveStage {
    /// Checking, before anything else, whether the destination exists.
    FirstCheck,
    /// Learning the source entry's type.
    Classify,
    /// Creating the destination of a directory entry.
    MakingDirectory,
    /// Creating the parent of a file's destination.
    MakingParent,
    /// Checking the destination again before moving a file.
    SecondCheck,
    /// Renaming the file onto its destination.
    Renaming,
    /// The rename failed: checking the destination before copying.
    FallbackCheck,
    /// Copying the file's bytes.
    Copying,
    /// Deleting the source file after a successful copy.
    RemovingSource,
    Finished(Outcome),
}

/// The action that the host performs in a stage.
pub open spec fn action_of(stage: MoveStage) -> MoveAction {
    match stage {
        MoveStage::FirstCheck => MoveAction::CheckDestination,
        MoveStage::Classify => MoveAction::CheckSourceKind,
        MoveStage::MakingDirectory => MoveAction::CreateDirectory,
        MoveStage::MakingParent => MoveAction::CreateParent,
        MoveStage::SecondCheck => MoveAction::CheckDestination,
        MoveStage::Renaming => MoveAction::Rename,
        MoveStage::FallbackCheck => MoveAction::CheckDestination,
        MoveStage::Copying => MoveAction::Copy,
        MoveStage::RemovingSource => MoveAction::RemoveSource,
        MoveStage::Finished(_) => MoveAction::Stop,
    }
}

/// An action that could put new content at the destination path. (Creating a
/// directory is not one: it leaves an existing entry as it is.)
pub open spec fn writes_destination(a: MoveAction) -> bool {
    a == MoveAction::Rename || a == MoveAction::Copy
}

/// The stage that follows `stage` once the host reports `event`. An event that
/// does not answer the stage's action ends the task as a failed transfer; a
/// finished task stays finished.
pub open spec fn next_stage(stage: MoveStage, event: MoveEvent) -> MoveStage {
    let mismatch = MoveStage::Finished(Outcome::Failure(FailureCause::Transfer));
    match stage {
        MoveStage::FirstCheck => match event {
            MoveEvent::DestinationPresent(true) => MoveStage::Finished(Outcome::Skipped),
            MoveEvent::DestinationPresent(false) => MoveStage::Classify,
            _ => mismatch,
        },
        MoveStage::Classify => match event {
            MoveEvent::SourceKind(EntryKind::Directory) => MoveStage::MakingDirectory,
            MoveEvent::SourceKind(EntryKind::File) => MoveStage::MakingParent,
            MoveEvent::SourceKind(EntryKind::Other) => MoveStage::Finished(Outcome::Success),
            _ => mismatch,
        },
        MoveStage::MakingDirectory => match event {
            MoveEvent::DirectoryCreated(CreateResult::Failed) => MoveStage::Finished(
                Outcome::Failure(FailureCause::DirectoryCreate),
            ),
            MoveEvent::DirectoryCreated(_) => MoveStage::Finished(Outcome::Success),
            _ => mismatch,
        },
        MoveStage::MakingParent => match event {
            MoveEvent::DirectoryCreated(CreateResult::Failed) => MoveStage::Finished(
                Outcome::Failure(FailureCause::DirectoryCreate),
            ),
            MoveEvent::DirectoryCreated(_) => MoveStage::SecondCheck,
            _ => mismatch,
        },
        MoveStage::SecondCheck => match event {
            MoveEvent::DestinationPresent(true) => MoveStage::Finished(Outcome::Skipped),
            MoveEvent::DestinationPresent(false) => MoveStage::Renaming,
            _ => mismatch,
        },
        MoveStage::Renaming => match event {
            MoveEvent::Renamed(true) => MoveStage::Finished(Outcome::Success),
            MoveEvent::Renamed(false) => MoveStage::FallbackCheck,
            _ => mismatch,
        },
        MoveStage::FallbackCheck => match event {
            MoveEvent::DestinationPresent(true) => MoveStage::Finished(Outcome::Skipped),
            MoveEvent::DestinationPresent(false) => MoveStage::Copying,
            _ => mismatch,
        },
        MoveStage::Copying => match event {
            MoveEvent::Copied(CopyResult::Copied) => MoveStage::RemovingSource,
            MoveEvent::Copied(CopyResult::DestinationExists) => MoveStage::Finished(
                Outcome::Skipped,
            ),
            MoveEvent::Copied(CopyResult::Failed) => MoveStage::Finished(
                Outcome::Failure(FailureCause::Transfer),
            ),
            _ => mismatch,
        },
        MoveStage::RemovingSource => match event {
            MoveEvent::SourceRemoved(_) => MoveStage::Finished(Outcome::Success),
            _ => mismatch,
        },
        MoveStage::Finished(o) => MoveStage::Finished(o),
    }
}

/// The stage that a run of events leads to from `stage`.
pub open spec fn run_events(stage: MoveStage, events: Seq<MoveEvent>) -> MoveStage
    decreases events.len(),
{
    if events.len() == 0 {
        stage
    } else {
        next_stage(run_events(stage, events.drop_last()), events.last())
    }
}

impl MoveStage {
    /// The stage every task starts in.
    pub fn start() -> (r: MoveStage)
        ensures
            r == MoveStage::FirstCheck,
            action_of(r) == MoveAction::CheckDestination,
    {
        MoveStage::FirstCheck
    }

    /// The action the host performs next.
    pub fn action(&self) -> (r: MoveAction)
        ensures
            r == action_of(*self),
    {
        match self {
            MoveStage::FirstCheck => MoveAction::CheckDestination,
            MoveStage::Classify => MoveAction::CheckSourceKind,
            MoveStage::MakingDirectory => MoveAction::CreateDirectory,
            MoveStage::MakingParent => MoveAction::CreateParent,
            MoveStage::SecondCheck => MoveAction::CheckDestination,
            MoveStage::Renaming => MoveAction::Rename,
            MoveStage::FallbackCheck => MoveAction::CheckDestination,
            MoveStage::Copying => MoveAction::Copy,
            MoveStage::RemovingSource => MoveAction::RemoveSource,
            MoveStage::Finished(_) => MoveAction::Stop,
        }
    }

    /// The outcome, once the task has finished.
    pub fn outcome(&self) -> (r: Option<Outcome>)
        ensures
            r == (match *self {
                MoveStage::Finished(o) => Some(o),
                _ => None,
            }),
    {
        match self {
            MoveStage::Finished(o) => Some(*o),
            _ => None,
        }
    }

    /// Advances the task by the event the host observed. An action that could
    /// put content at the destination is only ever issued right after the destination was
    /// seen absent, and a destination seen present ends the task as skipped.
    pub fn advance(&mut self, event: MoveEvent)
        ensures
            *final(self) == next_stage(*old(self), event),
            writes_destination(action_of(*final(self))) ==> event == MoveEvent::DestinationPresent(
                false,
            ),
            event == MoveEvent::DestinationPresent(true) && action_of(*old(self))
                == MoveAction::CheckDestination ==> *final(self) == MoveStage::Finished(
                Outcome::Skipped,
            ),
    {
        let mismatch = MoveStage::Finished(Outcome::Failure(FailureCause::Transfer));
        let next = match *self {
            MoveStage::FirstCheck => match event {
                MoveEvent::DestinationPresent(true) => MoveStage::Finished(Outcome::Skipped),
                MoveEvent::DestinationPresent(false) => MoveStage::Classify,
                _ => mismatch,
            },
            MoveStage::Classify => match event {
                MoveEvent::SourceKind(EntryKind::Directory) => MoveStage::MakingDirectory,
                MoveEvent::SourceKind(EntryKind::File) => MoveStage::MakingParent,
                MoveEvent::SourceKind(EntryKind::Other) => MoveStage::Finished(Outcome::Success),
                _ => mismatch,
            },
            MoveStage::MakingDirectory => match event {
                MoveEvent::DirectoryCreated(CreateResult::Failed) => MoveStage::Finished(
                    Outcome::Failure(FailureCause::DirectoryCreate),
                ),
                MoveEvent::DirectoryCreated(_) => MoveStage::Finished(Outcome::Success),
                _ => mismatch,
            },
            MoveStage::MakingParent => match event {
                MoveEvent::DirectoryCreated(CreateResult::Failed) => MoveStage::Finished(
                    Outcome::Failure(FailureCause::DirectoryCreate),
                ),
                MoveEvent::DirectoryCreated(_) => MoveStage::SecondCheck,
                _ => mismatch,
            },
            MoveStage::SecondCheck => match event {
                MoveEvent::DestinationPresent(true) => MoveStage::Finished(Outcome::Skipped),
                MoveEvent::DestinationPresent(false) => MoveStage::Renaming,
                _ => mismatch,
            },
            MoveStage::Renaming => match event {
                MoveEvent::Renamed(true) => MoveStage::Finished(Outcome::Success),
                MoveEvent::Renamed(false) => MoveStage::FallbackCheck,
                _ => mismatch,
            },
            MoveStage::FallbackCheck => match event {
                MoveEvent::DestinationPresent(true) => MoveStage::Finished(Outcome::Skipped),
                MoveEvent::DestinationPresent(false) => MoveStage::Copying,
                _ => mismatch,
            },
            MoveStage::Copying => match event {
                MoveEvent::Copied(CopyResult::Copied) => MoveStage::RemovingSource,
                MoveEvent::Copied(CopyResult::DestinationExists) => MoveStage::Finished(
                    Outcome::Skipped,
                ),
                MoveEvent::Copied(CopyResult::Failed) => MoveStage::Finished(
                    Outcome::Failure(FailureCause::Transfer),
                ),
                _ => mismatch,
            },
            MoveStage::RemovingSource => match event {
                MoveEvent::SourceRemoved(_) => MoveStage::Finished(Outcome::Success),
                _ => mismatch,
            },
            MoveStage::Finished(o) => MoveStage::Finished(o),
        };
        *self = next;
    }
}

} // verus!
