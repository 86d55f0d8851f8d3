//! Verified text helpers: lexicographic ordering of strings (used to sort
//! scan results by name), extraction of a path's final component, and the
//! short form of a commit id.

use vstd::prelude::*;
use vstd::string::StrSliceExecFns;
use vstd::string::StringExecFns;

verus! {

/// Lexicographic "less or equal" on character sequences, comparing
/// code points position by position; a proper prefix precedes its
/// extensions.
pub open spec fn lex_le(a: Seq<char>, b: Seq<char>) -> bool
    decreases a.len(),
{
    if a.len() == 0 {
        true
    } else if b.len() == 0 {
        false
    } else if (a[0] as u32) < (b[0] as u32) {
        true
    } else if (a[0] as u32) > (b[0] as u32) {
        false
    } else {
        lex_le(a.drop_first(), b.drop_first())
    }
}

/// LAW: the order is total — of any two strings, one precedes the other.
pub proof fn lemma_lex_le_total(a: Seq<char>, b: Seq<char>)
    ensures
        lex_le(a, b) || lex_le(b, a),
    decreases a.len(),
{
    if a.len() == 0 || b.len() == 0 {
    } else if (a[0] as u32) == (b[0] as u32) {
        lemma_lex_le_total(a.drop_first(), b.drop_first());
    }
}

/// LAW: the order is transitive.
pub proof fn lemma_lex_le_trans(a: Seq<char>, b: Seq<char>, c: Seq<char>)
    requires
        lex_le(a, b),
        lex_le(b, c),
    ensures
        lex_le(a, c),
    decreases a.len(),
{
    if a.len() == 0 {
    } else {
        if (a[0] as u32) == (b[0] as u32) && (b[0] as u32) == (c[0] as u32) {
            lemma_lex_le_trans(a.drop_first(), b.drop_first(), c.drop_first());
        }
    }
}

/// Decide `lex_le` on string slices.
pub fn str_le(a: &str, b: &str) -> (r: bool)
    ensures
        r == lex_le(a@, b@),
{
    let alen = a.unicode_len();
    let blen = b.unicode_len();
    let mut i: usize = 0;
    proof {
        assert(a@.skip(0) =~= a@);
        assert(b@.skip(0) =~= b@);
    }
    loop
        invariant
            i <= alen,
            i <= blen,
            alen == a@.len(),
            blen == b@.len(),
            lex_le(a@, b@) == lex_le(a@.skip(i as int), b@.skip(i as int)),
            lex_le(b@, a@) == lex_le(b@.skip(i as int), a@.skip(i as int)),
        decreases alen - i,
    {
        if i == alen {
            proof {
                assert(a@.skip(i as int).len() == 0);
            }
            return true;
        }
        if i == blen {
            proof {
                assert(b@.skip(i as int).len() == 0);
                assert(a@.skip(i as int).len() > 0);
            }
            return false;
        }
        let ca = a.get_char(i);
        let cb = b.get_char(i);
        proof {
            assert(a@.skip(i as int)[0] == a@[i as int]);
            assert(b@.skip(i as int)[0] == b@[i as int]);
        }
        if (ca as u32) < (cb as u32) {
            return true;
        }
        if (ca as u32) > (cb as u32) {
            return false;
        }
        proof {
            assert(a@.skip(i as int).drop_first() =~= a@.skip(i as int + 1));
            assert(b@.skip(i as int).drop_first() =~= b@.skip(i as int + 1));
        }
        i = i + 1;
    }
}

/// Decide equality of the character sequences of two string slices.
pub fn str_eq(a: &str, b: &str) -> (r: bool)
    ensures
        r == (a@ == b@),
{
    let alen = a.unicode_len();
    let blen = b.unicode_len();
    if alen != blen {
        return false;
    }
    let mut i: usize = 0;
    while i < alen
        invariant
            i <= alen,
            alen == a@.len(),
            alen == b@.len(),
            forall|k: int| 0 <= k < i ==> a@[k] == b@[k],
        decreases alen - i,
    {
        let ca = a.get_char(i);
        let cb = b.get_char(i);
        if ca != cb {
            return false;
        }
        i = i + 1;
    }
    proof {
        assert(a@ =~= b@);
    }
    true
}

/// The position of the last path separator in `s`, or -1 when none occurs.
pub open spec fn last_slash(s: Seq<char>) -> int
    decreases s.len(),
{
    if s.len() == 0 {
        -1
    } else if s.last() == '/' {
        s.len() - 1
    } else {
        last_slash(s.drop_last())
    }
}

/// Everything after the last path separator (the whole string when there
/// is none).
pub open spec fn last_component(s: Seq<char>) -> Seq<char> {
    s.skip(last_slash(s) + 1)
}

/// The string without its trailing path separators.
pub open spec fn trim_trailing_slashes(s: Seq<char>) -> Seq<char>
    decreases s.len(),
{
    if s.len() > 0 && s.last() == '/' {
        trim_trailing_slashes(s.drop_last())
    } else {
        s
    }
}

/// The display name of a repository at a path: the final component once
/// trailing separators are skipped, or "Unknown" when nothing is left (an
/// empty path, or separators only).
pub open spec fn repo_name_spec(s: Seq<char>) -> Seq<char> {
    if last_component(trim_trailing_slashes(s)).len() == 0 {
        "Unknown"@
    } else {
        last_component(trim_trailing_slashes(s))
    }
}

/// Extract the repository display name from its path.
pub fn repo_name_of_path(path: &str) -> (r: String)
    ensures
        r@ == repo_name_spec(path@),
{
    let n = path.unicode_len();
    let mut e: usize = n;
    proof {
        assert(path@.take(n as int) =~= path@);
    }
    loop
        invariant
            e <= n,
            n == path@.len(),
            trim_trailing_slashes(path@) == trim_trailing_slashes(path@.take(e as int)),
        ensures
            e <= path@.len(),
            path@.take(e as int) == trim_trailing_slashes(path@),
        decreases e,
    {
        if e == 0 {
            proof {
                assert(path@.take(0).len() == 0);
            }
            break;
        }
        let c = path.get_char(e - 1);
        if c != '/' {
            proof {
                let t = path@.take(e as int);
                assert(t.last() == path@[e as int - 1]);
            }
            break;
        }
        proof {
            let t = path@.take(e as int);
            assert(t.last() == path@[e as int - 1]);
            assert(t.drop_last() =~= path@.take(e as int - 1));
        }
        e = e - 1;
    }
    let ghost trimmed = path@.take(e as int);
    let mut i: usize = e;
    loop
        invariant
            i <= e,
            e <= n,
            n == path@.len(),
            trimmed == path@.take(e as int),
            last_slash(trimmed) == last_slash(path@.take(i as int)),
        ensures
            i as int == last_slash(trimmed) + 1,
            i <= e,
        decreases i,
    {
        if i == 0 {
            proof {
                assert(path@.take(0).len() == 0);
                assert(last_slash(trimmed) == -1);
            }
            break;
        }
        let c = path.get_char(i - 1);
        if c == '/' {
            proof {
                let t = path@.take(i as int);
                assert(t.last() == path@[i as int - 1]);
                assert(last_slash(t) == i - 1);
            }
            break;
        }
        proof {
            let t = path@.take(i as int);
            assert(t.last() == path@[i as int - 1]);
            assert(t.drop_last() =~= path@.take(i as int - 1));
        }
        i = i - 1;
    }
    let name = path.substring_char(i, e);
    proof {
        assert(name@ =~= trimmed.skip(last_slash(trimmed) + 1));
    }
    if name.unicode_len() == 0 {
        String::from_str("Unknown")
    } else {
        name.to_owned()
    }
}

/// The short form of a commit id: its first seven characters, or the whole
/// id when it is shorter.
pub open spec fn short_id_spec(id: Seq<char>) -> Seq<char> {
    if id.len() <= 7 {
        id
    } else {
        id.take(7)
    }
}

/// Shorten a commit id to its display form.
pub fn short_id_of(id: &str) -> (r: String)
    ensures
        r@ == short_id_spec(id@),
{
    let n = id.unicode_len();
    if n <= 7 {
        id.to_owned()
    } else {
        id.substring_char(0, 7).to_owned()
    }
}

} // verus!
