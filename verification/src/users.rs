//! Users as the pipeline sees them: the resolved owner of an analysis
//! request and the record created for a first-time directory user.

use vstd::prelude::*;

use crate::orchestrator::fresh_id;

verus! {

/// A stored user.  The id is the hyphenated text form of a version-4 UUID.
#[derive(Clone, Debug)]
pub struct User {
    pub id: String,
    pub username: String,
    pub email: String,
}

impl User {
    /// Builds a fresh user record with a newly drawn id.
    pub fn new(username: String, email: String) -> (r: User)
        ensures
            r.username@ == username@,
            r.email@ == email@,
            r.id@.len() == 36,
    {
        User { id: fresh_id(), username, email }
    }
}

/// What is known of a directory user when a record is first created.
#[derive(Clone, Debug)]
pub struct CreateUser {
    pub username: String,
    pub dn: String,
    pub full_name: Option<String>,
    pub email: Option<String>,
}

} // verus!
