use vstd::prelude::*;

verus! {

/// A snapshot of one discovered repository, recomputed on every scan and
/// never persisted. `has_changes` is true exactly when some status category
/// (staged, unstaged, untracked or conflicted) is non-empty.
#[derive(Clone, Debug)]
pub struct RepositoryInfo {
    pub path: String,
    pub name: String,
    pub branch: Option<String>,
    pub has_changes: bool,
    pub staged_count: usize,
    pub unstaged_count: usize,
    pub untracked_count: usize,
    pub ahead: usize,
    pub behind: usize,
}

/// The current branch of one repository and its divergence from the
/// configured upstream. `current` is `"HEAD"` when detached or unborn.
#[derive(Clone, Debug)]
pub struct BranchInfo {
    pub current: String,
    pub ahead: usize,
    pub behind: usize,
    pub upstream: Option<String>,
}

/// One commit as read from the history walk. Immutable once read;
/// `short_id` is a seven-character prefix of the full hash.
#[derive(Clone, Debug)]
pub struct CommitInfo {
    pub id: String,
    pub short_id: String,
    pub message: String,
    pub author: String,
    pub timestamp: i64,
}

/// One stash entry. `index` is transient: it is the entry's position in the
/// current stash list, not a stable identifier, and becomes stale after any
/// mutating stash operation; `id` is the stable content hash.
#[derive(Clone, Debug)]
pub struct StashInfo {
    pub index: usize,
    pub message: String,
    pub id: String,
}

} // verus!
