//! Decision logic of a re-runnable, parallel directory-tree relocation engine.
//!
//! The filesystem work (walking, stat calls, renames, copies, thread pool,
//! progress display) is performed by the host; this library decides what
//! that work is and what its results mean, and proves those decisions.
pub mod error;
pub mod laws;
pub mod long_path;
pub mod mover;
pub mod path;
pub mod summary;
pub mod task;
