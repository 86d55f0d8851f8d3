use vstd::prelude::*;

verus! {

/// One SSH key pair found under the user's SSH directory.
#[derive(Clone, Debug)]
pub struct SshKeyInfo {
    pub key_type: String,
    pub path: String,
    pub public_key: String,
    pub has_private_key: bool,
    pub created_at: Option<String>,
}

/// One GPG key as the keyring reports it.
#[derive(Clone, Debug)]
pub struct GpgKeyInfo {
    pub key_id: String,
    pub user_id: String,
    pub email: String,
    pub created_at: Option<String>,
    pub has_private_key: bool,
}

} // verus!
