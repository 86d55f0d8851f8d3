//! Trusted boundary to the version-control backend and the directory
//! walker. Each item here wraps one backend operation (a call, or the
//! resolution chain its doc comment names) and converts the outcome to
//! plain values; Verus believes the stated contracts without reading the
//! bodies. Results that depend on the repository's on-disk state carry no
//! `ensures`: the verified callers state what holds of every outcome.

use vstd::prelude::*;

verus! {

#[verifier::external_type_specification]
#[verifier::external_body]
pub struct ExRepository(git2::Repository);

#[verifier::external_type_specification]
#[verifier::external_body]
pub struct ExGitError(git2::Error);

/// What a resolved HEAD reference says: the branch shorthand (absent when
/// it cannot be read as text) and the tip commit id (absent when HEAD does
/// not point at a commit).
pub struct HeadRef {
    pub shorthand: Option<String>,
    pub target: Option<String>,
}

/// The upstream configured for a local branch: its shorthand name and the
/// id of the commit it points at, each absent when it cannot be resolved.
pub struct UpstreamInfo {
    pub name: Option<String>,
    pub tip: Option<String>,
}

/// One raw status entry as the backend reports it: the path and the
/// backend's change-flag bits.
pub struct StatusEntryRaw {
    pub path: String,
    pub bits: u32,
}

/// One raw stash entry: its position in the stash list, its message and
/// its content id.
pub struct StashEntryRaw {
    pub index: usize,
    pub message: String,
    pub id: String,
}

/// The metadata of one commit: author name, full message, and commit time
/// in seconds since the epoch.
pub struct CommitMeta {
    pub author: String,
    pub message: String,
    pub timestamp: i64,
}

/// One entry met by the directory walk: its path and whether it is a
/// directory.
pub struct WalkedDir {
    pub path: String,
    pub is_dir: bool,
}

/// Relies on git2::Repository::open: opens the repository at `path`.
#[verifier::external_body]
pub(crate) fn open_repository(path: &str) -> (r: Result<git2::Repository, git2::Error>) {
    git2::Repository::open(path)
}

/// Relies on git2::Error::message: the backend's text for this error.
#[verifier::external_body]
pub(crate) fn git_error_message(e: &git2::Error) -> (r: String) {
    e.message().to_string()
}

/// Relies on git2::Error::code: whether the backend classified this error
/// as "not found".
#[verifier::external_body]
pub(crate) fn git_error_is_notfound(e: &git2::Error) -> (r: bool) {
    e.code() == git2::ErrorCode::NotFound
}

/// Relies on git2::Repository::head, Reference::shorthand and
/// Reference::target. Returns `Ok(None)` when HEAD is unborn (no commits
/// yet) or absent, and propagates any other backend error.
#[verifier::external_body]
pub(crate) fn head_reference(repo: &git2::Repository) -> (r: Result<
    Option<HeadRef>,
    git2::Error,
>) {
    match repo.head() {
        Ok(h) => Ok(
            Some(
                HeadRef {
                    shorthand: h.shorthand().ok().map(|s| s.to_string()),
                    target: h.target().map(|o| o.to_string()),
                },
            ),
        ),
        Err(e) if e.code() == git2::ErrorCode::UnbornBranch || e.code()
            == git2::ErrorCode::NotFound => Ok(None),
        Err(e) => Err(e),
    }
}

/// Relies on git2::Repository::find_branch, Branch::upstream, Branch::name
/// and Reference::peel_to_commit: resolves the upstream configured for the
/// local branch named `branch`, with `None` at any resolution failure.
#[verifier::external_body]
pub(crate) fn upstream_info(repo: &git2::Repository, branch: &str) -> (r: Option<
    UpstreamInfo,
>) {
    let b = match repo.find_branch(branch, git2::BranchType::Local) {
        Ok(b) => b,
        Err(_) => return None,
    };
    let u = match b.upstream() {
        Ok(u) => u,
        Err(_) => return None,
    };
    let name = u.name().ok().flatten().map(|s| s.to_string());
    let tip = u.get().peel_to_commit().ok().map(|c| c.id().to_string());
    Some(UpstreamInfo { name, tip })
}

/// Relies on git2::Repository::graph_ahead_behind: the counts of commits
/// reachable from `local` but not `upstream`, and the reverse, over the
/// commit ancestry graph.
#[verifier::external_body]
pub(crate) fn graph_ahead_behind(repo: &git2::Repository, local: &str, upstream: &str) -> (r:
    Result<(usize, usize), git2::Error>) {
    let l = git2::Oid::from_str(local)?;
    let u = git2::Oid::from_str(upstream)?;
    repo.graph_ahead_behind(l, u)
}

/// Relies on git2::Repository::statuses with untracked files included on
/// request, untracked directories recursed, and ignored directories not:
/// one entry per changed path, each converted to its path text and flag
/// bits.
#[verifier::external_body]
pub(crate) fn read_status_entries(repo: &git2::Repository, include_untracked: bool) -> (r:
    Result<Vec<StatusEntryRaw>, git2::Error>) {
    let mut opts = git2::StatusOptions::new();
    opts.include_untracked(include_untracked);
    opts.recurse_untracked_dirs(include_untracked);
    opts.recurse_ignored_dirs(false);
    let statuses = repo.statuses(Some(&mut opts))?;
    Ok(
        statuses.iter().map(
            |e| StatusEntryRaw { path: e.path().unwrap_or("").to_string(), bits: e.status().bits() },
        ).collect(),
    )
}

/// Relies on git2::Repository::revwalk from HEAD and Iterator::take, which
/// yields at most `limit` items: the ids of the first commits of the walk,
/// most recent first, without materializing the full history.
#[verifier::external_body]
pub(crate) fn head_commit_ids(repo: &git2::Repository, limit: usize) -> (r: Result<
    Vec<String>,
    git2::Error,
>)
    ensures
        r is Ok ==> r->Ok_0@.len() <= limit,
{
    let mut walk = repo.revwalk()?;
    walk.push_head()?;
    let mut out = Vec::new();
    for id in walk.take(limit) {
        out.push(id?.to_string());
    }
    Ok(out)
}

/// Relies on git2::Repository::find_commit and the commit's author, message
/// and time accessors, converted to plain values.
#[verifier::external_body]
pub(crate) fn commit_metadata(repo: &git2::Repository, id: &str) -> (r: Result<
    CommitMeta,
    git2::Error,
>) {
    let oid = git2::Oid::from_str(id)?;
    let c = repo.find_commit(oid)?;
    let meta = CommitMeta {
        author: c.author().name().unwrap_or("Unknown").to_string(),
        message: c.message().unwrap_or("").to_string(),
        timestamp: c.time().seconds(),
    };
    Ok(meta)
}

/// Relies on git2::Repository::stash_foreach: the callback is issued once
/// per entry in list order, most recent first, with the entry's position
/// starting at 0; so the entry at position `i` of the result carries
/// index `i`.
#[verifier::external_body]
pub(crate) fn stash_entries(repo: &mut git2::Repository) -> (r: Result<
    Vec<StashEntryRaw>,
    git2::Error,
>)
    ensures
        r is Ok ==> forall|i: int|
            0 <= i < r->Ok_0@.len() ==> r->Ok_0@[i].index == i,
{
    let mut out = Vec::new();
    repo.stash_foreach(
        |index, message, id| {
            out.push(StashEntryRaw { index, message: message.to_string(), id: id.to_string() });
            true
        },
    )?;
    Ok(out)
}

/// Relies on git2::Repository::stash_save with the repository's default
/// signature, including untracked files on request.
#[verifier::external_body]
pub(crate) fn stash_save_raw(repo: &mut git2::Repository, message: &str, include_untracked:
    bool) -> (r: Result<(), git2::Error>) {
    let sig = repo.signature()?;
    let mut flags = git2::StashFlags::DEFAULT;
    if include_untracked {
        flags |= git2::StashFlags::INCLUDE_UNTRACKED;
    }
    repo.stash_save(&sig, message, Some(flags))?;
    Ok(())
}

/// Relies on git2::Repository::stash_apply: restores the entry at `index`
/// into the working tree and index without removing it from the list.
#[verifier::external_body]
pub(crate) fn stash_apply_raw(repo: &mut git2::Repository, index: usize) -> (r: Result<
    (),
    git2::Error,
>) {
    let mut opts = git2::StashApplyOptions::new();
    repo.stash_apply(index, Some(&mut opts))
}

/// Relies on git2::Repository::stash_pop: applies the entry at `index` and
/// removes it from the list only when the apply succeeded.
#[verifier::external_body]
pub(crate) fn stash_pop_raw(repo: &mut git2::Repository, index: usize) -> (r: Result<
    (),
    git2::Error,
>) {
    let mut opts = git2::StashApplyOptions::new();
    repo.stash_pop(index, Some(&mut opts))
}

/// Relies on git2::Repository::stash_drop: removes the entry at `index`
/// without applying it.
#[verifier::external_body]
pub(crate) fn stash_drop_raw(repo: &mut git2::Repository, index: usize) -> (r: Result<
    (),
    git2::Error,
>) {
    repo.stash_drop(index)
}

/// Relies on std::path::Path::exists.
#[verifier::external_body]
pub(crate) fn path_exists(p: &str) -> (r: bool) {
    std::path::Path::new(p).exists()
}

/// Relies on ignore::WalkBuilder with hidden-file exclusion and the
/// `.ignore` and `.gitignore` filters switched off (the walker's global
/// gitignore and git-exclude filters keep their defaults): visits the
/// entries under `root`, converted to path text and whether each is a
/// directory.
#[verifier::external_body]
pub(crate) fn walk_entries(root: &str) -> (r: Vec<WalkedDir>) {
    let walk = ignore::WalkBuilder::new(root).hidden(false).ignore(false).git_ignore(false).build();
    let mut out = Vec::new();
    for entry in walk {
        if let Ok(e) = entry {
            let path = e.path().to_string_lossy().to_string();
            let is_dir = e.path().is_dir();
            out.push(WalkedDir { path, is_dir });
        }
    }
    out
}

/// Relies on std::path::Path::is_dir, asked of the `.git` child of `dir`:
/// the repository marker test.
#[verifier::external_body]
pub(crate) fn has_git_marker(dir: &str) -> (r: bool) {
    std::path::Path::new(dir).join(".git").is_dir()
}

} // verus!
