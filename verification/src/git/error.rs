//! Error taxonomy for repository operations. Backend failures arrive from
//! the background side already flattened to plain strings.

use vstd::prelude::*;

verus! {

#[derive(Debug, Clone, PartialEq, Eq)]
pub enum GitError {
    /// The repository could not be found or opened.
    RepoNotFound,
    /// The given path is not inside a repository.
    NotARepo,
    /// A backend failure, with its message.
    Git(String),
    /// An I/O failure, with its message.
    Io(String),
    /// A commit id that does not resolve.
    InvalidCommit(String),
    /// A reference that does not resolve.
    RefNotFound(String),
    /// Text from the repository that is not valid UTF-8.
    InvalidUtf8,
}

/// The rendering of each error as user-visible text.
pub open spec fn message_spec(e: GitError) -> Seq<char> {
    match e {
        GitError::RepoNotFound => "Git repository not found"@,
        GitError::NotARepo => "Not in a git repository"@,
        GitError::Git(m) => "Git error: "@ + m@,
        GitError::Io(m) => "IO error: "@ + m@,
        GitError::InvalidCommit(m) => "Invalid commit ID: "@ + m@,
        GitError::RefNotFound(m) => "Reference not found: "@ + m@,
        GitError::InvalidUtf8 => "Invalid UTF-8 in git data"@,
    }
}

impl GitError {
    /// A user-visible description of the error.
    pub fn message(&self) -> (r: String)
        ensures
            r@ == message_spec(*self),
    {
        match self {
            GitError::RepoNotFound => String::from_str("Git repository not found"),
            GitError::NotARepo => String::from_str("Not in a git repository"),
            GitError::Git(m) => String::from_str("Git error: ").concat(m.as_str()),
            GitError::Io(m) => String::from_str("IO error: ").concat(m.as_str()),
            GitError::InvalidCommit(m) => String::from_str("Invalid commit ID: ").concat(
                m.as_str(),
            ),
            GitError::RefNotFound(m) => String::from_str("Reference not found: ").concat(
                m.as_str(),
            ),
            GitError::InvalidUtf8 => String::from_str("Invalid UTF-8 in git data"),
        }
    }
}

} // verus!
