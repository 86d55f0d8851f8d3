//! The operation log's data model and its pure logic: the log file's
//! location inside a repository and the ordering applied when entries are
//! read back. Reading and writing the file itself is I/O and lives outside
//! the library.

use vstd::prelude::*;
use vstd::multiset::group_multiset_axioms;
use vstd::multiset::Multiset;
use vstd::seq_lib::group_to_multiset_ensures;
use vstd::string::StringExecFns;
use crate::repo::lemma_to_multiset_insert;
use crate::text::{lemma_lex_le_total, lemma_lex_le_trans, lex_le, str_le};

verus! {

/// One recorded operation: what ran, against which repository, when, and
/// how it ended.
#[derive(Clone, Debug)]
pub struct OperationLogEntry {
    pub timestamp: String,
    pub operation: String,
    pub details: String,
    pub repo_path: String,
    pub success: bool,
    pub error: Option<String>,
}

/// Where a repository's operation log lives: the log file inside the
/// engine's dot-directory under the repository root.
pub open spec fn log_file_path_spec(repo_path: Seq<char>) -> Seq<char> {
    repo_path + "/.gat/operations.log"@
}

/// The path of the operation log file for the repository at `repo_path`.
pub fn get_log_file_path(repo_path: &str) -> (r: String)
    ensures
        r@ == log_file_path_spec(repo_path@),
{
    let mut s = repo_path.to_owned();
    s.append("/.gat/operations.log");
    s
}

/// The entries stand newest first: every earlier entry's timestamp is at
/// least every later one's.
pub open spec fn sorted_by_timestamp_desc(s: Seq<OperationLogEntry>) -> bool {
    forall|i: int, j: int|
        0 <= i < j < s.len() ==> lex_le(#[trigger] s[j].timestamp@, #[trigger] s[i].timestamp@)
}

/// Order log entries newest first by their timestamp text and keep at most
/// `limit` of them (all of them when no limit is given): the compute step
/// of reading the log back. Under a limit the result is the leading slice
/// of a newest-first ordering of the whole input — the most recent entries,
/// never fewer than the limit allows.
pub fn order_logs(logs: Vec<OperationLogEntry>, limit: Option<usize>) -> (r: Vec<
    OperationLogEntry,
>)
    ensures
        sorted_by_timestamp_desc(r@),
        limit is None ==> r@.to_multiset() == logs@.to_multiset(),
        limit matches Some(l) ==> exists|s: Seq<OperationLogEntry>|
            {
                &&& #[trigger] s.to_multiset() == logs@.to_multiset()
                &&& sorted_by_timestamp_desc(s)
                &&& r@ == s.take(vstd::math::min(l as int, s.len() as int))
            },
{
    let mut src = logs;
    let ghost orig = src@;
    let mut out: Vec<OperationLogEntry> = Vec::new();
    proof {
        broadcast use group_multiset_axioms;
        broadcast use group_to_multiset_ensures;

        assert(out@.to_multiset() =~= Multiset::empty());
        assert(out@.to_multiset().add(src@.to_multiset()) =~= orig.to_multiset());
    }
    while src.len() > 0
        invariant
            orig == logs@,
            sorted_by_timestamp_desc(out@),
            out@.to_multiset().add(src@.to_multiset()) == orig.to_multiset(),
        decreases src@.len(),
    {
        let ghost src0 = src@;
        let x = src.remove(0);
        proof {
            broadcast use group_to_multiset_ensures;
            broadcast use group_multiset_axioms;

            assert(src@ =~= src0.remove(0));
            assert(src@.to_multiset() =~= src0.to_multiset().remove(x));
            assert(src0[0] == x);
            assert(src0.contains(x));
            assert(src0.to_multiset().count(x) > 0);
        }
        let mut j: usize = 0;
        while j < out.len() && str_le(x.timestamp.as_str(), out[j].timestamp.as_str())
            invariant
                j <= out@.len(),
                forall|k: int| 0 <= k < j ==> lex_le(x.timestamp@, #[trigger] out@[k].timestamp@),
            decreases out@.len() - j,
        {
            j = j + 1;
        }
        proof {
            assert forall|k: int| j <= k < out@.len() implies lex_le(
                #[trigger] out@[k].timestamp@,
                x.timestamp@,
            ) by {
                lemma_lex_le_total(x.timestamp@, out@[j as int].timestamp@);
                if k > j {
                    lemma_lex_le_trans(out@[k].timestamp@, out@[j as int].timestamp@, x.timestamp@);
                }
            }
        }
        let ghost out0 = out@;
        let ghost xv = x;
        out.insert(j, x);
        proof {
            broadcast use group_multiset_axioms;

            out0.insert_ensures(j as int, xv);
            assert(sorted_by_timestamp_desc(out@));
            lemma_to_multiset_insert(out0, j as int, xv);
            assert(out@.to_multiset().add(src@.to_multiset()) =~= orig.to_multiset());
        }
    }
    proof {
        broadcast use group_multiset_axioms;
        broadcast use group_to_multiset_ensures;

        assert(src@.to_multiset() =~= Multiset::empty());
        assert(out@.to_multiset() =~= orig.to_multiset());
    }
    match limit {
        Some(l) => {
            let ghost before = out@;
            out.truncate(l);
            proof {
                let m = vstd::math::min(l as int, before.len() as int);
                if l <= before.len() {
                    assert(out@ =~= before.take(m));
                } else {
                    assert(out@ =~= before.take(m));
                }
                assert(exists|s: Seq<OperationLogEntry>|
                    {
                        &&& #[trigger] s.to_multiset() == logs@.to_multiset()
                        &&& sorted_by_timestamp_desc(s)
                        &&& out@ == s.take(vstd::math::min(l as int, s.len() as int))
                    }) by {
                    assert(before.to_multiset() == logs@.to_multiset());
                    assert(out@ == before.take(vstd::math::min(l as int, before.len() as int)));
                }
            }
            out
        },
        None => out,
    }
}

} // verus!
