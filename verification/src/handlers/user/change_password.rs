//! Body of the password-change request.
use vstd::prelude::*;

verus! {

/// Body of a password-change request: the session token and the new password.
#[derive(Debug, Clone)]
pub struct ChangePasswordInput {
    pub token: String,
    pub new_password: String,
}

} // verus!
