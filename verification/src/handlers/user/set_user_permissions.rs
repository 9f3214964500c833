//! Body of the request that replaces a user's permissions.
use vstd::prelude::*;

verus! {

/// Body of a permission-replacement request.
#[derive(Debug, Clone)]
pub struct AddUserInput {
    pub token: String,
    pub target_user_id: String,
    pub new_permissions: Vec<String>,
}

} // verus!
