//! The engine's error taxonomy.
use vstd::prelude::*;

verus! {

/// Why a source root was rejected before any work began.
#[derive(Clone, Copy, Debug, PartialEq, Eq, Structural)]
pub enum SourceProblem {
    Missing,
    NotADirectory,
}

/// Why a single move task failed.
#[derive(Clone, Copy, Debug, PartialEq, Eq, Structural)]
pub enum FailureCause {
    /// A directory could not be created, for a reason other than that it
    /// already exists.
    DirectoryCreate,
    /// A file could not be moved or copied, for a reason other than that the
    /// destination already exists.
    Transfer,
}

/// The failure of one task, located by its position in dispatch order.
#[derive(Clone, Copy, Debug, PartialEq, Eq, Structural)]
pub struct TaskFailure {
    pub index: usize,
    pub cause: FailureCause,
}

/// A fatal error of a migration run.
#[derive(Clone, Copy, Debug, PartialEq, Eq, Structural)]
pub enum MigrationError {
    /// The source root is missing or is not a directory.
    InvalidSource(SourceProblem),
    /// The source tree could not be walked, or an entry's relative path could
    /// not be computed.
    Enumeration,
    /// The first failed task, in dispatch order.
    Task(TaskFailure),
}

/// The description of each error.
pub open spec fn description(e: MigrationError) -> Seq<char> {
    match e {
        MigrationError::InvalidSource(SourceProblem::Missing) => "Source directory does not exist"@,
        MigrationError::InvalidSource(SourceProblem::NotADirectory) => "Source is not a directory"@,
        MigrationError::Enumeration => "Failed to read the source tree"@,
        MigrationError::Task(f) => match f.cause {
            FailureCause::DirectoryCreate => "Failed to create a destination directory"@,
            FailureCause::Transfer => "Failed to transfer a file"@,
        },
    }
}

impl MigrationError {
    /// A short description of the error, for display by the host.
    pub fn describe(&self) -> (r: String)
        ensures
            r@ == description(*self),
    {
        let s = match self {
            MigrationError::InvalidSource(SourceProblem::Missing) => "Source directory does not exist",
            MigrationError::InvalidSource(SourceProblem::NotADirectory) => "Source is not a directory",
            MigrationError::Enumeration => "Failed to read the source tree",
            MigrationError::Task(f) => match f.cause {
                FailureCause::DirectoryCreate => "Failed to create a destination directory",
                FailureCause::Transfer => "Failed to transfer a file",
            },
        };
        proof {
            reveal_strlit("Source directory does not exist");
            reveal_strlit("Source is not a directory");
            reveal_strlit("Failed to read the source tree");
            reveal_strlit("Failed to create a destination directory");
            reveal_strlit("Failed to transfer a file");
        }
        s.to_owned()
    }
}

} // verus!
