use vstd::prelude::*;

use crate::ids::UserId;

verus! {

/// A user with the password hash it logs in with.
#[derive(Debug, Clone)]
pub struct User {
    pub id: UserId,
    pub username: String,
    pub password_hash: String,
}

} // verus!
