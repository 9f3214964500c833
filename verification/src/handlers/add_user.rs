//! Body of the account-creation request of the first API version.
use vstd::prelude::*;

verus! {

/// Body of an account-creation request.
#[derive(Debug, Clone)]
pub struct AddUserInput {
    pub token: String,
    pub username: String,
    pub password: String,
}

} // verus!
