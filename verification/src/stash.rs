//! Stash lifecycle operations, each atomic with respect to the backend.
//! The stash list is an externally-owned sequence with the most recent
//! entry at position 0; positional indices become stale after any mutating
//! operation and must be re-listed before reuse.

use vstd::prelude::*;
use crate::backend;
use crate::domain::repository::StashInfo;
use crate::error::AppError;

verus! {

/// List the stash entries of the repository at `path`. On success the
/// entries come in list order: the entry at position `i` carries index `i`,
/// with 0 the most recent.
pub fn get_stash_list(path: &str) -> (r: Result<Vec<StashInfo>, AppError>)
    ensures
        r is Ok ==> forall|i: int|
            0 <= i < r->Ok_0@.len() ==> (#[trigger] r->Ok_0@[i]).index == i,
        r is Err ==> r->Err_0 is Git,
{
    let mut repo = match backend::open_repository(path) {
        Ok(rp) => rp,
        Err(e) => {
            return Err(AppError::Git(backend::git_error_message(&e)));
        },
    };
    let raw = match backend::stash_entries(&mut repo) {
        Ok(v) => v,
        Err(e) => {
            return Err(AppError::Git(backend::git_error_message(&e)));
        },
    };
    let mut out: Vec<StashInfo> = Vec::new();
    let n = raw.len();
    let mut i: usize = 0;
    while i < n
        invariant
            i <= n,
            n == raw@.len(),
            out@.len() == i,
            forall|t: int| 0 <= t < raw@.len() ==> (#[trigger] raw@[t]).index == t,
            forall|t: int| 0 <= t < i ==> (#[trigger] out@[t]).index == t,
        decreases n - i,
    {
        let e = &raw[i];
        out.push(StashInfo { index: e.index, message: e.message.clone(), id: e.id.clone() });
        i = i + 1;
    }
    Ok(out)
}

/// Save the current index and worktree modifications as a new stash entry,
/// optionally including untracked files. When the backend reports that
/// there is nothing to stash, the failure is `NothingToCommit`; any other
/// backend failure is reported as `Git`.
pub fn stash_save(path: &str, message: Option<&str>, include_untracked: bool) -> (r: Result<
    (),
    AppError,
>)
    ensures
        r is Err ==> (r->Err_0 is NothingToCommit || r->Err_0 is Git),
{
    let mut repo = match backend::open_repository(path) {
        Ok(rp) => rp,
        Err(e) => {
            return Err(AppError::Git(backend::git_error_message(&e)));
        },
    };
    let msg = match message {
        Some(m) => m,
        None => "",
    };
    match backend::stash_save_raw(&mut repo, msg, include_untracked) {
        Ok(u) => Ok(u),
        Err(e) => {
            if backend::git_error_is_notfound(&e) {
                Err(AppError::NothingToCommit)
            } else {
                Err(AppError::Git(backend::git_error_message(&e)))
            }
        },
    }
}

/// Restore the stash entry at `index` into the working tree and index
/// without removing it from the list. A conflict surfaces as a `Git`
/// error; nothing is auto-resolved.
pub fn stash_apply(path: &str, index: usize) -> (r: Result<(), AppError>)
    ensures
        r is Err ==> r->Err_0 is Git,
{
    let mut repo = match backend::open_repository(path) {
        Ok(rp) => rp,
        Err(e) => {
            return Err(AppError::Git(backend::git_error_message(&e)));
        },
    };
    match backend::stash_apply_raw(&mut repo, index) {
        Ok(u) => Ok(u),
        Err(e) => Err(AppError::Git(backend::git_error_message(&e))),
    }
}

/// Apply the stash entry at `index` and drop it, as one logical operation.
/// When the apply fails (for example on conflicts) the backend keeps the
/// entry in the list, and the failure is reported rather than the entry
/// silently dropped.
pub fn stash_pop(path: &str, index: usize) -> (r: Result<(), AppError>)
    ensures
        r is Err ==> r->Err_0 is Git,
{
    let mut repo = match backend::open_repository(path) {
        Ok(rp) => rp,
        Err(e) => {
            return Err(AppError::Git(backend::git_error_message(&e)));
        },
    };
    match backend::stash_pop_raw(&mut repo, index) {
        Ok(u) => Ok(u),
        Err(e) => Err(AppError::Git(backend::git_error_message(&e))),
    }
}

/// Remove the stash entry at `index` without applying it.
pub fn stash_drop(path: &str, index: usize) -> (r: Result<(), AppError>)
    ensures
        r is Err ==> r->Err_0 is Git,
{
    let mut repo = match backend::open_repository(path) {
        Ok(rp) => rp,
        Err(e) => {
            return Err(AppError::Git(backend::git_error_message(&e)));
        },
    };
    match backend::stash_drop_raw(&mut repo, index) {
        Ok(u) => Ok(u),
        Err(e) => Err(AppError::Git(backend::git_error_message(&e))),
    }
}

} // verus!
