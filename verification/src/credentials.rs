//! The credential keys this engine manages. The secrets themselves live in
//! the platform keyring, an external collaborator; the underlying store
//! cannot enumerate its keys, so the engine maintains the fixed list of
//! keys it uses.

use vstd::prelude::*;
use vstd::string::StringExecFns;

verus! {

/// The credential keys the engine reads and writes.
pub fn list_credentials() -> (r: Vec<String>)
    ensures
        r@.len() == 4,
        r@[0]@ == "github-token"@,
        r@[1]@ == "gitlab-token"@,
        r@[2]@ == "git-username"@,
        r@[3]@ == "git-password"@,
{
    let mut out: Vec<String> = Vec::new();
    out.push(String::from_str("github-token"));
    out.push(String::from_str("gitlab-token"));
    out.push(String::from_str("git-username"));
    out.push(String::from_str("git-password"));
    out
}

} // verus!
