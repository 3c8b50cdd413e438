//! What the authentication collaborator exchanges with the pipeline: the
//! submitted credentials and the directory's answer about a user.

use vstd::prelude::*;

verus! {

/// Submitted login credentials.
#[derive(Clone, Debug)]
pub struct LoginDto {
    pub username: String,
    pub password: String,
}

/// What the directory reports about a user.
#[derive(Clone, Debug)]
pub struct UserInfo {
    pub dn: String,
    pub full_name: Option<String>,
    pub email: Option<String>,
}

} // verus!
