//! Repository discovery and inspection: scanning a directory tree for
//! repository roots, probing each repository concurrently for a snapshot,
//! branch divergence against the configured upstream, and bounded commit
//! history.

use vstd::prelude::*;
use vstd::seq_lib::group_to_multiset_ensures;
use vstd::multiset::group_multiset_axioms;
use vstd::multiset::Multiset;
use rayon::iter::IntoParallelRefIterator;
use rayon::iter::ParallelIterator;
use crate::backend;
use crate::backend::{HeadRef, UpstreamInfo};
use crate::classify;
use crate::domain::repository::{BranchInfo, CommitInfo, RepositoryInfo};
use crate::domain::status::RepoStatus;
use crate::error::AppError;
use crate::text::{
    lemma_lex_le_total, lemma_lex_le_trans, lex_le, repo_name_of_path, repo_name_spec,
    short_id_of, short_id_spec, str_eq, str_le,
};

verus! {

/// The character sequences of a sequence of strings.
pub open spec fn views_of(s: Seq<String>) -> Seq<Seq<char>> {
    s.map_values(|x: String| x@)
}

/// `a` names a proper ancestor directory of `b`: `b` extends `a` with a
/// path separator and more.
pub open spec fn is_path_ancestor(a: Seq<char>, b: Seq<char>) -> bool {
    &&& a.len() < b.len()
    &&& b.take(a.len() as int) == a
    &&& b[a.len() as int] == '/'
}

/// Some directory in `dirs` is a proper ancestor of `dirs[i]`.
pub open spec fn has_marked_ancestor(dirs: Seq<Seq<char>>, i: int) -> bool {
    exists|j: int| 0 <= j < dirs.len() && is_path_ancestor(#[trigger] dirs[j], dirs[i])
}

/// Of the first `k` marked directories, those that have no marked proper
/// ancestor anywhere in `dirs`: the repository roots, with roots nested
/// inside another discovered root suppressed.
pub open spec fn root_selection(dirs: Seq<Seq<char>>, k: int) -> Seq<Seq<char>>
    decreases k,
{
    if k <= 0 {
        Seq::empty()
    } else {
        let prefix = root_selection(dirs, k - 1);
        if !has_marked_ancestor(dirs, k - 1) {
            prefix.push(dirs[k - 1])
        } else {
            prefix
        }
    }
}

/// Decide `is_path_ancestor` on string slices.
pub fn is_ancestor(a: &str, b: &str) -> (r: bool)
    ensures
        r == is_path_ancestor(a@, b@),
{
    let al = a.unicode_len();
    let bl = b.unicode_len();
    if al >= bl {
        return false;
    }
    if b.get_char(al) != '/' {
        return false;
    }
    let pre = b.substring_char(0, al);
    proof {
        assert(pre@ =~= b@.take(al as int));
    }
    str_eq(pre, a)
}

/// Whether some directory of `dirs` is a proper ancestor of `dirs[i]`.
fn has_ancestor_in(dirs: &Vec<String>, i: usize) -> (r: bool)
    requires
        i < dirs@.len(),
    ensures
        r == has_marked_ancestor(views_of(dirs@), i as int),
{
    let n = dirs.len();
    let mut j: usize = 0;
    while j < n
        invariant
            j <= n,
            n == dirs@.len(),
            i < n,
            forall|k: int|
                0 <= k < j ==> !is_path_ancestor(
                    #[trigger] views_of(dirs@)[k],
                    views_of(dirs@)[i as int],
                ),
        decreases n - j,
    {
        if is_ancestor(dirs[j].as_str(), dirs[i].as_str()) {
            proof {
                assert(is_path_ancestor(views_of(dirs@)[j as int], views_of(dirs@)[i as int]));
            }
            return true;
        }
        j = j + 1;
    }
    false
}

/// Keep exactly the marked directories that are nested under no other
/// marked directory, in discovery order: the repository roots to report.
pub fn select_repo_roots(dirs: &Vec<String>) -> (r: Vec<String>)
    ensures
        views_of(r@) == root_selection(views_of(dirs@), dirs@.len() as int),
{
    let n = dirs.len();
    let mut out: Vec<String> = Vec::new();
    let mut i: usize = 0;
    proof {
        assert(views_of(out@) =~= root_selection(views_of(dirs@), 0));
    }
    while i < n
        invariant
            i <= n,
            n == dirs@.len(),
            views_of(out@) == root_selection(views_of(dirs@), i as int),
        decreases n - i,
    {
        let nested = has_ancestor_in(dirs, i);
        if !nested {
            let ghost before = out@;
            out.push(dirs[i].clone());
            proof {
                assert(views_of(out@) =~= views_of(before).push(dirs@[i as int]@));
            }
        }
        i = i + 1;
    }
    out
}

/// A snapshot is well-formed when its name is derived from its path (the
/// final component, or "Unknown") and its counters are consistent with its
/// change flag: a non-zero staged, unstaged or untracked count forces
/// `has_changes`, and a clear `has_changes` forces all three counters to
/// zero (a conflicted path alone may set `has_changes` with all three at
/// zero).
pub open spec fn wf_repo_info(info: RepositoryInfo) -> bool {
    &&& info.name@ == repo_name_spec(info.path@)
    &&& (info.staged_count > 0 || info.unstaged_count > 0 || info.untracked_count > 0)
        ==> info.has_changes
    &&& !info.has_changes ==> info.staged_count == 0 && info.unstaged_count == 0
        && info.untracked_count == 0
}

/// What a probe promises of its result whatever the repository holds: on
/// success, the snapshot is a well-formed snapshot of the probed path; on
/// failure, the error reports the backend's.
pub open spec fn probe_post(path: Seq<char>, r: Result<RepositoryInfo, AppError>) -> bool {
    &&& r is Ok ==> {
        &&& r->Ok_0.path@ == path
        &&& wf_repo_info(r->Ok_0)
    }
    &&& r is Err ==> r->Err_0 is Git
}

/// The branch name a probe reports: HEAD's shorthand when one was read,
/// absent when HEAD is unborn or its name unreadable.
pub open spec fn head_branch_view(head: Option<HeadRef>) -> Option<Seq<char>> {
    match head {
        Option::Some(h) => match h.shorthand {
            Option::Some(s) => Option::Some(s@),
            Option::None => Option::None,
        },
        Option::None => Option::None,
    }
}

/// Ahead/behind counts against a resolved upstream. Divergence is
/// best-effort metadata: with no upstream, or none that resolves to a tip
/// commit, or a failing graph walk, it is (0, 0), never an error.
pub fn divergence_with_upstream(
    repo: &git2::Repository,
    local_tip: &String,
    upstream: &Option<UpstreamInfo>,
) -> (r: (usize, usize))
    ensures
        upstream is None ==> r == (0usize, 0usize),
        (upstream matches Some(u) && u.tip is None) ==> r == (0usize, 0usize),
{
    match upstream {
        None => (0, 0),
        Some(u) => match &u.tip {
            None => (0, 0),
            Some(t) => match backend::graph_ahead_behind(repo, local_tip.as_str(), t.as_str()) {
                Ok(c) => c,
                Err(_) => (0, 0),
            },
        },
    }
}

/// Ahead/behind counts for the current HEAD: (0, 0) whenever HEAD is
/// unborn, detached without a readable name, or without a tip commit.
pub fn divergence(repo: &git2::Repository, head: &Option<HeadRef>) -> (r: (usize, usize))
    ensures
        head is None ==> r == (0usize, 0usize),
        (head matches Some(h) && h.shorthand is None) ==> r == (0usize, 0usize),
        (head matches Some(h) && h.target is None) ==> r == (0usize, 0usize),
{
    match head {
        None => (0, 0),
        Some(h) => match &h.shorthand {
            None => (0, 0),
            Some(branch) => match &h.target {
                None => (0, 0),
                Some(tip) => {
                    let up = backend::upstream_info(repo, branch.as_str());
                    divergence_with_upstream(repo, tip, &up)
                },
            },
        },
    }
}

/// Assemble one repository snapshot from what the backend answered: every
/// counter is the length of its status category, the change flag covers all
/// four categories (conflicted included), the branch is HEAD's shorthand,
/// and the name is derived from the path.
pub fn assemble_repository_info(
    path: &String,
    head: &Option<HeadRef>,
    status: &RepoStatus,
    counts: (usize, usize),
) -> (r: RepositoryInfo)
    ensures
        r.path@ == path@,
        r.name@ == repo_name_spec(path@),
        r.branch is Some <==> head_branch_view(*head) is Some,
        r.branch is Some ==> r.branch->0@ == head_branch_view(*head)->0,
        r.staged_count == status.staged@.len(),
        r.unstaged_count == status.unstaged@.len(),
        r.untracked_count == status.untracked@.len(),
        r.has_changes == (status.total_spec() > 0),
        r.ahead == counts.0,
        r.behind == counts.1,
{
    let name = repo_name_of_path(path.as_str());
    let branch = match head {
        Some(h) => match &h.shorthand {
            Some(s) => Some(s.clone()),
            None => None,
        },
        None => None,
    };
    let has_changes = status.has_changes();
    RepositoryInfo {
        path: path.clone(),
        name,
        branch,
        has_changes,
        staged_count: status.staged.len(),
        unstaged_count: status.unstaged.len(),
        untracked_count: status.untracked.len(),
        ahead: counts.0,
        behind: counts.1,
    }
}

/// Probe one repository: open it, read HEAD's branch name, classify the
/// status, and measure divergence. On success the snapshot is for the
/// probed path with consistent counters; every failure reports the
/// backend's error.
pub fn get_repository_info(path: &String) -> (r: Result<RepositoryInfo, AppError>)
    ensures
        probe_post(path@, r),
{
    let repo = match backend::open_repository(path.as_str()) {
        Ok(rp) => rp,
        Err(e) => {
            return Err(AppError::Git(backend::git_error_message(&e)));
        },
    };
    let head = match backend::head_reference(&repo) {
        Ok(h) => h,
        Err(e) => {
            return Err(AppError::Git(backend::git_error_message(&e)));
        },
    };
    let entries = match backend::read_status_entries(&repo, true) {
        Ok(es) => es,
        Err(e) => {
            return Err(AppError::Git(backend::git_error_message(&e)));
        },
    };
    let status = classify::classify_entries(&entries);
    let counts = divergence(&repo, &head);
    Ok(assemble_repository_info(path, &head, &status, counts))
}

/// Relies on rayon's parallel iterator over a slice: `par_iter` fans the
/// probes out over the worker pool, and `map`/`collect` keep one result
/// per input path, in input order. The closure only calls the verified
/// probe, so each slot satisfies the probe's contract for its path.
#[verifier::external_body]
fn probe_all(paths: &Vec<String>) -> (r: Vec<Result<RepositoryInfo, AppError>>)
    ensures
        r@.len() == paths@.len(),
        forall|i: int| 0 <= i < r@.len() ==> probe_post(paths@[i]@, #[trigger] r@[i]),
{
    paths.par_iter().map(|p| get_repository_info(p)).collect()
}

/// Fold per-repository probe results with all-or-nothing semantics: all
/// successes give the list of snapshots in order; otherwise the first
/// failure, in probe order, aborts the whole scan.
pub fn collect_all(results: Vec<Result<RepositoryInfo, AppError>>) -> (r: Result<
    Vec<RepositoryInfo>,
    AppError,
>)
    ensures
        r is Ok <==> (forall|i: int| 0 <= i < results@.len() ==> (#[trigger] results@[i]) is Ok),
        r is Ok ==> r->Ok_0@.len() == results@.len() && (forall|i: int|
            0 <= i < results@.len() ==> r->Ok_0@[i] == (#[trigger] results@[i])->Ok_0),
        r is Err ==> (exists|i: int|
            0 <= i < results@.len() && (#[trigger] results@[i]) is Err
                && r->Err_0 == results@[i]->Err_0
                && (forall|k: int| 0 <= k < i ==> results@[k] is Ok)),
{
    let mut rest = results;
    let ghost orig = rest@;
    let mut out: Vec<RepositoryInfo> = Vec::new();
    proof {
        assert(rest@ =~= orig.skip(0));
    }
    while rest.len() > 0
        invariant
            orig == results@,
            rest@ == orig.skip(out@.len() as int),
            out@.len() <= orig.len(),
            forall|t: int|
                0 <= t < out@.len() ==> (#[trigger] orig[t]) is Ok && out@[t] == orig[t]->Ok_0,
        decreases rest@.len(),
    {
        let ghost k = out@.len() as int;
        let x = rest.remove(0);
        let ghost xv = x;
        proof {
            assert(xv == orig.skip(k)[0]);
            assert(orig.skip(k)[0] == orig[k]);
            assert(rest@ =~= orig.skip(k + 1));
        }
        match x {
            Ok(v) => {
                out.push(v);
            },
            Err(e) => {
                proof {
                    assert(xv is Err && xv->Err_0 == e);
                    assert(exists|i: int|
                        0 <= i < orig.len() && (#[trigger] orig[i]) is Err && e == orig[i]->Err_0
                            && (forall|t: int| 0 <= t < i ==> orig[t] is Ok)) by {
                        assert(0 <= k < orig.len() && (#[trigger] orig[k]) is Err && e
                            == orig[k]->Err_0 && (forall|t: int| 0 <= t < k ==> orig[t] is Ok));
                    }
                    assert(!(forall|i: int| 0 <= i < orig.len() ==> (#[trigger] orig[i]) is Ok))
                        by {
                        assert(!(orig[k] is Ok));
                    }
                }
                return Err(e);
            },
        }
    }
    proof {
        assert(out@.len() == orig.len());
    }
    Ok(out)
}

/// The snapshots stand in name order: every earlier entry's name precedes
/// every later one's.
pub open spec fn sorted_by_name(s: Seq<RepositoryInfo>) -> bool {
    forall|i: int, j: int|
        0 <= i < j < s.len() ==> lex_le(#[trigger] s[i].name@, #[trigger] s[j].name@)
}

/// Inserting an element into a sequence adds exactly it to the multiset of
/// elements.
pub proof fn lemma_to_multiset_insert<A>(s: Seq<A>, i: int, a: A)
    requires
        0 <= i <= s.len(),
    ensures
        s.insert(i, a).to_multiset() == s.to_multiset().insert(a),
{
    broadcast use group_to_multiset_ensures;
    broadcast use group_multiset_axioms;

    let s1 = s.subrange(0, i);
    let s2 = s.subrange(i, s.len() as int);
    vstd::seq_lib::lemma_multiset_commutative(s1.push(a), s2);
    vstd::seq_lib::lemma_multiset_commutative(s1, s2);
    assert(s1 + s2 =~= s);
    assert(s1.push(a).to_multiset() =~= s1.to_multiset().insert(a));
    assert(s.insert(i, a).to_multiset() =~= s.to_multiset().insert(a));
}

/// Sort the snapshots by repository name (insertion sort): the result is
/// in name order and holds exactly the input snapshots.
pub fn sort_by_name(v: Vec<RepositoryInfo>) -> (r: Vec<RepositoryInfo>)
    ensures
        sorted_by_name(r@),
        r@.to_multiset() == v@.to_multiset(),
{
    let ghost orig = v@;
    let mut src = v;
    let mut out: Vec<RepositoryInfo> = Vec::new();
    proof {
        broadcast use group_multiset_axioms;
        broadcast use group_to_multiset_ensures;

        assert(out@.to_multiset() =~= Multiset::empty());
        assert(out@.to_multiset().add(src@.to_multiset()) =~= orig.to_multiset());
    }
    while src.len() > 0
        invariant
            sorted_by_name(out@),
            out@.to_multiset().add(src@.to_multiset()) == orig.to_multiset(),
        decreases src@.len(),
    {
        let ghost src0 = src@;
        let x = src.remove(0);
        proof {
            broadcast use group_to_multiset_ensures;
            broadcast use group_multiset_axioms;

            assert(src@ =~= src0.remove(0));
            assert(src@.to_multiset() =~= src0.to_multiset().remove(x));
            assert(src0[0] == x);
            assert(src0.contains(x));
            assert(src0.to_multiset().count(x) > 0);
        }
        let mut j: usize = 0;
        while j < out.len() && str_le(out[j].name.as_str(), x.name.as_str())
            invariant
                j <= out@.len(),
                forall|k: int| 0 <= k < j ==> lex_le(#[trigger] out@[k].name@, x.name@),
            decreases out@.len() - j,
        {
            j = j + 1;
        }
        proof {
            assert forall|k: int| j <= k < out@.len() implies lex_le(
                x.name@,
                #[trigger] out@[k].name@,
            ) by {
                lemma_lex_le_total(out@[j as int].name@, x.name@);
                if k > j {
                    lemma_lex_le_trans(x.name@, out@[j as int].name@, out@[k].name@);
                }
            }
        }
        let ghost out0 = out@;
        let ghost xv = x;
        out.insert(j, x);
        proof {
            broadcast use group_multiset_axioms;

            out0.insert_ensures(j as int, xv);
            assert(sorted_by_name(out@));
            lemma_to_multiset_insert(out0, j as int, xv);
            assert(out@.to_multiset().add(src@.to_multiset()) =~= orig.to_multiset());
        }
    }
    proof {
        broadcast use group_multiset_axioms;
        broadcast use group_to_multiset_ensures;

        assert(src@.to_multiset() =~= Multiset::empty());
        assert(out@.to_multiset() =~= orig.to_multiset());
    }
    out
}

/// Scan a directory tree for repositories and snapshot each one. Fails
/// with `RepoNotFound` when the root itself is missing, and with the first
/// probe error otherwise (all-or-nothing batch semantics). On success the
/// list is sorted by repository name and every snapshot has consistent
/// counters.
pub fn scan_repositories(root_path: &str) -> (r: Result<Vec<RepositoryInfo>, AppError>)
    ensures
        r is Ok ==> sorted_by_name(r->Ok_0@),
        r is Ok ==> forall|i: int|
            0 <= i < r->Ok_0@.len() ==> wf_repo_info(#[trigger] r->Ok_0@[i]),
        r is Err ==> (r->Err_0 is Git || (r->Err_0 is RepoNotFound
            && r->Err_0->RepoNotFound_0@ == root_path@)),
{
    if !backend::path_exists(root_path) {
        return Err(AppError::RepoNotFound(root_path.to_owned()));
    }
    let walked = backend::walk_entries(root_path);
    let mut marked: Vec<String> = Vec::new();
    let mut i: usize = 0;
    while i < walked.len()
        invariant
            i <= walked@.len(),
        decreases walked@.len() - i,
    {
        let w = &walked[i];
        if w.is_dir {
            if backend::has_git_marker(w.path.as_str()) {
                marked.push(w.path.clone());
            }
        }
        i = i + 1;
    }
    let roots = select_repo_roots(&marked);
    let probed = probe_all(&roots);
    let ghost probed0 = probed@;
    let repos = match collect_all(probed) {
        Ok(v) => v,
        Err(e) => {
            proof {
                let t = choose|t: int|
                    0 <= t < probed0.len() && (#[trigger] probed0[t]) is Err
                        && e == probed0[t]->Err_0
                        && (forall|k: int| 0 <= k < t ==> probed0[k] is Ok);
                assert(probe_post(roots@[t]@, probed0[t]));
            }
            return Err(e);
        },
    };
    proof {
        assert forall|t: int| 0 <= t < repos@.len() implies wf_repo_info(
            #[trigger] repos@[t],
        ) by {
            assert(probe_post(roots@[t]@, probed0[t]));
        }
    }
    let sorted = sort_by_name(repos);
    proof {
        broadcast use group_to_multiset_ensures;

        assert forall|t: int| 0 <= t < sorted@.len() implies wf_repo_info(
            #[trigger] sorted@[t],
        ) by {
            assert(sorted@.contains(sorted@[t]));
            assert(sorted@.to_multiset().count(sorted@[t]) > 0);
            assert(repos@.to_multiset().count(sorted@[t]) > 0);
            assert(repos@.contains(sorted@[t]));
            let u = choose|u: int| 0 <= u < repos@.len() && repos@[u] == sorted@[t];
            assert(wf_repo_info(repos@[u]));
        }
    }
    Ok(sorted)
}

/// The items of each category carry the matching tag.
pub open spec fn wf_repo_status(s: RepoStatus) -> bool {
    &&& forall|i: int| 0 <= i < s.staged@.len() ==> (#[trigger] s.staged@[i]).status.staged
    &&& forall|i: int| 0 <= i < s.unstaged@.len() ==> (#[trigger] s.unstaged@[i]).status.unstaged
    &&& forall|i: int|
        0 <= i < s.untracked@.len() ==> (#[trigger] s.untracked@[i]).status.untracked
    &&& forall|i: int|
        0 <= i < s.conflicted@.len() ==> (#[trigger] s.conflicted@[i]).status.conflicted
}

/// All four categories of `s` are the classification of one and the same
/// raw entry sequence.
pub open spec fn classified_from(s: RepoStatus, entries: Seq<backend::StatusEntryRaw>) -> bool {
    &&& classify::items_match(s.staged@, classify::selected(entries, classify::staged_sel()))
    &&& classify::items_match(s.unstaged@, classify::selected(entries, classify::unstaged_sel()))
    &&& classify::items_match(
        s.untracked@,
        classify::selected(entries, classify::untracked_sel()),
    )
    &&& classify::items_match(
        s.conflicted@,
        classify::selected(entries, classify::conflicted_sel()),
    )
}

/// Read and classify the full status of the repository at `path`,
/// untracked files included. On success the four categories are the exact
/// classification of one raw status report, and every reported item
/// carries the tag of the category it stands in; a failure reports the
/// backend's error.
pub fn get_repo_status(path: &str) -> (r: Result<RepoStatus, AppError>)
    ensures
        r is Ok ==> wf_repo_status(r->Ok_0),
        r is Ok ==> exists|entries: Seq<backend::StatusEntryRaw>|
            #[trigger] classified_from(r->Ok_0, entries),
        r is Err ==> r->Err_0 is Git,
{
    let repo = match backend::open_repository(path) {
        Ok(rp) => rp,
        Err(e) => {
            return Err(AppError::Git(backend::git_error_message(&e)));
        },
    };
    let entries = match backend::read_status_entries(&repo, true) {
        Ok(es) => es,
        Err(e) => {
            return Err(AppError::Git(backend::git_error_message(&e)));
        },
    };
    let status = classify::classify_entries(&entries);
    proof {
        classify::lemma_selected_sel_holds(entries@, classify::staged_sel());
        classify::lemma_selected_sel_holds(entries@, classify::unstaged_sel());
        classify::lemma_selected_sel_holds(entries@, classify::untracked_sel());
        classify::lemma_selected_sel_holds(entries@, classify::conflicted_sel());
        assert(classified_from(status, entries@));
    }
    Ok(status)
}

/// The branch name to display: HEAD's shorthand, or "HEAD" when detached
/// without a readable name or unborn.
pub open spec fn current_branch_spec(head: Option<HeadRef>) -> Seq<char> {
    match head {
        Option::Some(h) => match h.shorthand {
            Option::Some(s) => s@,
            Option::None => "HEAD"@,
        },
        Option::None => "HEAD"@,
    }
}

/// The upstream shorthand to display, when one resolved with a readable
/// name.
pub open spec fn upstream_name_view(up: Option<UpstreamInfo>) -> Option<Seq<char>> {
    match up {
        Option::Some(u) => match u.name {
            Option::Some(n) => Option::Some(n@),
            Option::None => Option::None,
        },
        Option::None => Option::None,
    }
}

/// Assemble the branch report from what the backend answered: the current
/// name (defaulting to "HEAD"), the measured divergence, and the upstream
/// name. An unborn HEAD gives the fixed report ("HEAD", 0, 0, no
/// upstream).
pub fn assemble_branch_info(
    head: &Option<HeadRef>,
    up: &Option<UpstreamInfo>,
    counts: (usize, usize),
) -> (r: BranchInfo)
    ensures
        r.current@ == current_branch_spec(*head),
        head is None ==> r.ahead == 0 && r.behind == 0 && r.upstream is None,
        head is Some ==> r.ahead == counts.0 && r.behind == counts.1,
        head is Some ==> (r.upstream is Some <==> upstream_name_view(*up) is Some),
        head is Some && r.upstream is Some ==> r.upstream->0@ == upstream_name_view(*up)->0,
{
    match head {
        None => BranchInfo {
            current: String::from_str("HEAD"),
            ahead: 0,
            behind: 0,
            upstream: None,
        },
        Some(h) => {
            let current = match &h.shorthand {
                Some(s) => s.clone(),
                None => String::from_str("HEAD"),
            };
            let upstream = match up {
                Some(u) => match &u.name {
                    Some(n) => Some(n.clone()),
                    None => None,
                },
                None => None,
            };
            BranchInfo { current, ahead: counts.0, behind: counts.1, upstream }
        },
    }
}

/// Report the current branch of the repository at `path` with its
/// divergence from the configured upstream. An unborn HEAD reports the
/// unborn marker "HEAD" with zero divergence and no upstream.
pub fn get_branch_info(path: &str) -> (r: Result<BranchInfo, AppError>)
    ensures
        r is Err ==> r->Err_0 is Git,
{
    let repo = match backend::open_repository(path) {
        Ok(rp) => rp,
        Err(e) => {
            return Err(AppError::Git(backend::git_error_message(&e)));
        },
    };
    let head = match backend::head_reference(&repo) {
        Ok(h) => h,
        Err(e) => {
            return Err(AppError::Git(backend::git_error_message(&e)));
        },
    };
    let up = match &head {
        Some(h) => match &h.shorthand {
            Some(branch) => backend::upstream_info(&repo, branch.as_str()),
            None => None,
        },
        None => None,
    };
    let counts = match &head {
        Some(h) => match &h.target {
            Some(tip) => divergence_with_upstream(&repo, tip, &up),
            None => (0, 0),
        },
        None => (0, 0),
    };
    Ok(assemble_branch_info(&head, &up, counts))
}

/// The short id is the display prefix of the full id.
pub open spec fn wf_commit_info(c: CommitInfo) -> bool {
    c.short_id@ == short_id_spec(c.id@)
}

/// Convert walked commit ids to their metadata records, in walk order. On
/// success there is one record per id, carrying that id and its short
/// form; a failure reports the backend's error.
pub fn commits_from_ids(repo: &git2::Repository, ids: &Vec<String>) -> (r: Result<
    Vec<CommitInfo>,
    AppError,
>)
    ensures
        r is Ok ==> r->Ok_0@.len() == ids@.len(),
        r is Ok ==> forall|i: int|
            0 <= i < ids@.len() ==> (#[trigger] r->Ok_0@[i]).id@ == ids@[i]@ && wf_commit_info(
                r->Ok_0@[i],
            ),
        r is Err ==> r->Err_0 is Git,
{
    let mut out: Vec<CommitInfo> = Vec::new();
    let n = ids.len();
    let mut i: usize = 0;
    while i < n
        invariant
            i <= n,
            n == ids@.len(),
            out@.len() == i,
            forall|t: int|
                0 <= t < i ==> (#[trigger] out@[t]).id@ == ids@[t]@ && wf_commit_info(out@[t]),
        decreases n - i,
    {
        let meta = match backend::commit_metadata(repo, ids[i].as_str()) {
            Ok(m) => m,
            Err(e) => {
                return Err(AppError::Git(backend::git_error_message(&e)));
            },
        };
        let short_id = short_id_of(ids[i].as_str());
        out.push(
            CommitInfo {
                id: ids[i].clone(),
                short_id,
                message: meta.message,
                author: meta.author,
                timestamp: meta.timestamp,
            },
        );
        i = i + 1;
    }
    Ok(out)
}

/// Read up to `limit` commits reachable from HEAD, most recent first,
/// without materializing the full history. Fails with `InvalidInput` when
/// HEAD is unborn or points at no commit, and with `Git` on a backend
/// failure; on success at most `limit` records come back, each with its
/// short id.
pub fn get_commit_history(path: &str, limit: usize) -> (r: Result<Vec<CommitInfo>, AppError>)
    ensures
        r is Ok ==> r->Ok_0@.len() <= limit,
        r is Ok ==> forall|i: int|
            0 <= i < r->Ok_0@.len() ==> wf_commit_info(#[trigger] r->Ok_0@[i]),
        r is Err ==> (r->Err_0 is Git || (r->Err_0 is InvalidInput
            && r->Err_0->InvalidInput_0@ == "No head commit"@)),
{
    let repo = match backend::open_repository(path) {
        Ok(rp) => rp,
        Err(e) => {
            return Err(AppError::Git(backend::git_error_message(&e)));
        },
    };
    let head = match backend::head_reference(&repo) {
        Ok(h) => h,
        Err(e) => {
            return Err(AppError::Git(backend::git_error_message(&e)));
        },
    };
    let has_tip = match &head {
        Some(h) => h.target.is_some(),
        None => false,
    };
    if !has_tip {
        return Err(AppError::InvalidInput(String::from_str("No head commit")));
    }
    let ids = match backend::head_commit_ids(&repo, limit) {
        Ok(v) => v,
        Err(e) => {
            return Err(AppError::Git(backend::git_error_message(&e)));
        },
    };
    commits_from_ids(&repo, &ids)
}

} // verus!
