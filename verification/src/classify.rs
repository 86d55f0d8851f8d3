//! Classification of raw per-path change flags into the four status
//! categories. A path may belong to several categories at once; the input
//! order is preserved within each output sequence.

use vstd::prelude::*;
use crate::backend::StatusEntryRaw;
use crate::domain::status::{RepoStatus, StatusItem, StatusTags};

verus! {

// The backend's change-flag bits (libgit2's status flags).
pub const INDEX_NEW_BIT: u32 = 0x0001;

pub const INDEX_MODIFIED_BIT: u32 = 0x0002;

pub const INDEX_DELETED_BIT: u32 = 0x0004;

pub const INDEX_RENAMED_BIT: u32 = 0x0008;

pub const INDEX_TYPECHANGE_BIT: u32 = 0x0010;

pub const WT_NEW_BIT: u32 = 0x0080;

pub const WT_MODIFIED_BIT: u32 = 0x0100;

pub const WT_DELETED_BIT: u32 = 0x0200;

pub const WT_TYPECHANGE_BIT: u32 = 0x0400;

pub const WT_RENAMED_BIT: u32 = 0x0800;

pub const CONFLICTED_BIT: u32 = 0x8000;

/// Any index-side change: the path has something staged.
pub const STAGED_MASK: u32 = INDEX_NEW_BIT | INDEX_MODIFIED_BIT | INDEX_DELETED_BIT
    | INDEX_RENAMED_BIT | INDEX_TYPECHANGE_BIT;

/// Any worktree-side change to a tracked path: the path has unstaged edits.
pub const UNSTAGED_MASK: u32 = WT_MODIFIED_BIT | WT_DELETED_BIT | WT_TYPECHANGE_BIT
    | WT_RENAMED_BIT;

/// The flags mark some staged (index-side) change.
pub open spec fn staged_bits(bits: u32) -> bool {
    bits & STAGED_MASK != 0
}

/// The flags mark some unstaged (worktree-side) change to a tracked path.
pub open spec fn unstaged_bits(bits: u32) -> bool {
    bits & UNSTAGED_MASK != 0
}

/// The flags mark a new, untracked path in the worktree.
pub open spec fn untracked_bits(bits: u32) -> bool {
    bits & WT_NEW_BIT != 0
}

/// The flags mark a merge conflict on the path.
pub open spec fn conflicted_bits(bits: u32) -> bool {
    bits & CONFLICTED_BIT != 0
}

/// The full tag set carried by one entry's flag bits.
pub open spec fn tags_of_bits(bits: u32) -> StatusTags {
    StatusTags {
        staged: staged_bits(bits),
        unstaged: unstaged_bits(bits),
        untracked: untracked_bits(bits),
        conflicted: conflicted_bits(bits),
    }
}

pub open spec fn staged_sel() -> spec_fn(u32) -> bool {
    |b: u32| staged_bits(b)
}

pub open spec fn unstaged_sel() -> spec_fn(u32) -> bool {
    |b: u32| unstaged_bits(b)
}

pub open spec fn untracked_sel() -> spec_fn(u32) -> bool {
    |b: u32| untracked_bits(b)
}

pub open spec fn conflicted_sel() -> spec_fn(u32) -> bool {
    |b: u32| conflicted_bits(b)
}

/// The subsequence of entries whose bits satisfy `sel`, in input order,
/// each reduced to its path view and bits.
pub open spec fn selected(entries: Seq<StatusEntryRaw>, sel: spec_fn(u32) -> bool) -> Seq<
    (Seq<char>, u32),
>
    decreases entries.len(),
{
    if entries.len() == 0 {
        Seq::empty()
    } else {
        let prefix = selected(entries.drop_last(), sel);
        let e = entries.last();
        if sel(e.bits) {
            prefix.push((e.path@, e.bits))
        } else {
            prefix
        }
    }
}

/// The item stands for the selected entry: same path text, the tag set of
/// the entry's bits, and no rename origin (the backend does not report one
/// here).
pub open spec fn item_matches(p: (Seq<char>, u32), it: StatusItem) -> bool {
    &&& it.path@ == p.0
    &&& it.status == tags_of_bits(p.1)
    &&& it.old_path is None
}

/// The items are exactly the selected entries, position by position.
pub open spec fn items_match(items: Seq<StatusItem>, sel: Seq<(Seq<char>, u32)>) -> bool {
    &&& items.len() == sel.len()
    &&& forall|i: int| 0 <= i < items.len() ==> item_matches(sel[i], #[trigger] items[i])
}

/// Pure classification of the backend's raw status entries into the
/// four-way categorization. Each output sequence is exactly the input
/// subsequence carrying the matching flag, in input order.
pub fn classify_entries(entries: &Vec<StatusEntryRaw>) -> (r: RepoStatus)
    ensures
        items_match(r.staged@, selected(entries@, staged_sel())),
        items_match(r.unstaged@, selected(entries@, unstaged_sel())),
        items_match(r.untracked@, selected(entries@, untracked_sel())),
        items_match(r.conflicted@, selected(entries@, conflicted_sel())),
{
    let mut status = RepoStatus::new();
    let n = entries.len();
    let mut idx: usize = 0;
    while idx < n
        invariant
            idx <= n,
            n == entries@.len(),
            items_match(status.staged@, selected(entries@.take(idx as int), staged_sel())),
            items_match(status.unstaged@, selected(entries@.take(idx as int), unstaged_sel())),
            items_match(
                status.untracked@,
                selected(entries@.take(idx as int), untracked_sel()),
            ),
            items_match(
                status.conflicted@,
                selected(entries@.take(idx as int), conflicted_sel()),
            ),
        decreases n - idx,
    {
        let e = &entries[idx];
        let tags = StatusTags {
            staged: e.bits & STAGED_MASK != 0,
            unstaged: e.bits & UNSTAGED_MASK != 0,
            untracked: e.bits & WT_NEW_BIT != 0,
            conflicted: e.bits & CONFLICTED_BIT != 0,
        };
        if tags.staged {
            status.staged.push(
                StatusItem { path: e.path.clone(), status: tags, old_path: None },
            );
        }
        if tags.unstaged {
            status.unstaged.push(
                StatusItem { path: e.path.clone(), status: tags, old_path: None },
            );
        }
        if tags.untracked {
            status.untracked.push(
                StatusItem { path: e.path.clone(), status: tags, old_path: None },
            );
        }
        if tags.conflicted {
            status.conflicted.push(
                StatusItem { path: e.path.clone(), status: tags, old_path: None },
            );
        }
        idx = idx + 1;
        proof {
            assert(entries@.take(idx as int).drop_last() =~= entries@.take(idx as int - 1));
            assert(entries@.take(idx as int).last() == entries@[idx as int - 1]);
        }
    }
    proof {
        assert(entries@.take(n as int) =~= entries@);
    }
    status
}

/// Every selected pair carries bits that `sel` accepts.
pub proof fn lemma_selected_sel_holds(entries: Seq<StatusEntryRaw>, sel: spec_fn(u32) -> bool)
    ensures
        forall|i: int|
            0 <= i < selected(entries, sel).len() ==> sel(
                (#[trigger] selected(entries, sel)[i]).1,
            ),
    decreases entries.len(),
{
    if entries.len() > 0 {
        lemma_selected_sel_holds(entries.drop_last(), sel);
        let prefix = selected(entries.drop_last(), sel);
        let e = entries.last();
        if sel(e.bits) {
            assert forall|i: int| 0 <= i < selected(entries, sel).len() implies sel(
                (#[trigger] selected(entries, sel)[i]).1,
            ) by {
                if i < prefix.len() {
                    assert(selected(entries, sel)[i] == prefix[i]);
                } else {
                    assert(selected(entries, sel)[i] == (e.path@, e.bits));
                }
            }
        }
    }
}

/// Each entry that `sel` accepts is found, with its path and bits, in the
/// selected subsequence.
pub proof fn lemma_selected_contains(
    entries: Seq<StatusEntryRaw>,
    sel: spec_fn(u32) -> bool,
    i: int,
)
    requires
        0 <= i < entries.len(),
        sel(entries[i].bits),
    ensures
        selected(entries, sel).contains((entries[i].path@, entries[i].bits)),
    decreases entries.len(),
{
    if i == entries.len() - 1 {
        assert(entries.last() == entries[i]);
        let prefix = selected(entries.drop_last(), sel);
        assert(selected(entries, sel)[prefix.len() as int] == (entries[i].path@, entries[i].bits));
    } else {
        lemma_selected_contains(entries.drop_last(), sel, i);
        assert(entries.drop_last()[i] == entries[i]);
        let sub = selected(entries.drop_last(), sel);
        let j = choose|j: int| 0 <= j < sub.len() && sub[j] == (entries[i].path@, entries[i].bits);
        assert(selected(entries, sel)[j] == (entries[i].path@, entries[i].bits));
    }
}

/// LAW: a path whose flags mark it both staged in the index (for example
/// index-new) and changed in the worktree (for example worktree-modified)
/// is classified into both the staged and the unstaged sequences.
pub proof fn lemma_partially_staged_in_both(
    r: RepoStatus,
    entries: Seq<StatusEntryRaw>,
    i: int,
)
    requires
        items_match(r.staged@, selected(entries, staged_sel())),
        items_match(r.unstaged@, selected(entries, unstaged_sel())),
        0 <= i < entries.len(),
        staged_bits(entries[i].bits),
        unstaged_bits(entries[i].bits),
    ensures
        exists|j: int| 0 <= j < r.staged@.len() && #[trigger] r.staged@[j].path@ == entries[i].path@,
        exists|j: int|
            0 <= j < r.unstaged@.len() && #[trigger] r.unstaged@[j].path@ == entries[i].path@,
{
    lemma_selected_contains(entries, staged_sel(), i);
    lemma_selected_contains(entries, unstaged_sel(), i);
    let ss = selected(entries, staged_sel());
    let js = choose|j: int| 0 <= j < ss.len() && ss[j] == (entries[i].path@, entries[i].bits);
    assert(r.staged@[js].path@ == entries[i].path@);
    let us = selected(entries, unstaged_sel());
    let ju = choose|j: int| 0 <= j < us.len() && us[j] == (entries[i].path@, entries[i].bits);
    assert(r.unstaged@[ju].path@ == entries[i].path@);
}

} // verus!
