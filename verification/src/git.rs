//! Repository-facing data model: commits, diffs, status, and the chunked
//! history walk.

pub mod commit;
pub mod diff;
pub mod error;
pub mod repository;
pub mod status;
pub mod walker;

pub use commit::Commit;
pub use diff::{Diff, DiffFile, DiffHunk, DiffLine, FileStatus, LineType};
pub use error::GitError;
pub use repository::Repository;
pub use status::{EntryStatus, Status, StatusEntry, StatusFlags};
pub use walker::{ChunkBuffer, CommitWalker};
