//! Listing of accounts for administrators.
use vstd::prelude::*;

use crate::structs::User;

verus! {

/// An account as listed to administrators: id, name and permissions, never
/// the password hash.
pub fn listed_user(id: String, username: String, permissions: Vec<String>) -> (user: User)
    ensures
        user._id == Some(id),
        user.username == username,
        user.password is None,
        user.permissions == permissions,
{
    User { _id: Some(id), username, password: None, permissions }
}

} // verus!
