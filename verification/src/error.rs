use vstd::prelude::*;
use vstd::string::StringExecFns;

verus! {

/// Errors reported by the engine. Every failure carries enough context
/// (operation kind, offending path or backend message) for the caller to
/// render a specific message; errors are plain data.
#[derive(Clone, Debug)]
pub enum AppError {
    /// The underlying version-control backend reported a failure.
    Git(String),
    /// A filesystem access failed during a walk or auxiliary file I/O.
    Io(String),
    /// The root or repository path does not exist.
    RepoNotFound(String),
    /// There is nothing to stash or commit.
    NothingToCommit,
    /// A merge conflict was detected.
    MergeConflict,
    /// An HTTP request to a provider failed.
    Http(String),
    /// An AI-assistance request failed.
    AiApi(String),
    /// A caller argument was malformed or missing required context.
    InvalidInput(String),
}

impl AppError {
    /// The rendered message for this error, a prefix naming the kind
    /// followed by the carried detail.
    pub open spec fn message_spec(&self) -> Seq<char> {
        match self {
            AppError::Git(m) => "Git error: "@ + m@,
            AppError::Io(m) => "IO error: "@ + m@,
            AppError::RepoNotFound(p) => "Repository not found at "@ + p@,
            AppError::NothingToCommit => "Nothing to commit"@,
            AppError::MergeConflict => "Merge conflict detected"@,
            AppError::Http(m) => "HTTP error: "@ + m@,
            AppError::AiApi(m) => "AI API error: "@ + m@,
            AppError::InvalidInput(m) => "Invalid input: "@ + m@,
        }
    }

    /// Render the error as a human-readable message.
    pub fn message(&self) -> (r: String)
        ensures
            r@ == self.message_spec(),
    {
        match self {
            AppError::Git(m) => {
                let mut s = String::from_str("Git error: ");
                s.append(m.as_str());
                s
            },
            AppError::Io(m) => {
                let mut s = String::from_str("IO error: ");
                s.append(m.as_str());
                s
            },
            AppError::RepoNotFound(p) => {
                let mut s = String::from_str("Repository not found at ");
                s.append(p.as_str());
                s
            },
            AppError::NothingToCommit => String::from_str("Nothing to commit"),
            AppError::MergeConflict => String::from_str("Merge conflict detected"),
            AppError::Http(m) => {
                let mut s = String::from_str("HTTP error: ");
                s.append(m.as_str());
                s
            },
            AppError::AiApi(m) => {
                let mut s = String::from_str("AI API error: ");
                s.append(m.as_str());
                s
            },
            AppError::InvalidInput(m) => {
                let mut s = String::from_str("Invalid input: ");
                s.append(m.as_str());
                s
            },
        }
    }
}

impl From<String> for AppError {
    /// A bare string is treated as a malformed-input report.
    fn from(s: String) -> (r: AppError) {
        AppError::InvalidInput(s)
    }
}

impl vstd::std_specs::convert::FromSpecImpl<String> for AppError {
    open spec fn obeys_from_spec() -> bool {
        true
    }

    open spec fn from_spec(s: String) -> AppError {
        AppError::InvalidInput(s)
    }
}

} // verus!
