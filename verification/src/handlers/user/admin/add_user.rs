//! Account creation by an administrator.
use vstd::prelude::*;

use crate::access::admin_gate;
use crate::response::ApiError;
use crate::structs::User;

verus! {

/// Body of an account-creation request.
#[derive(Debug, Clone)]
pub struct AddUserInput {
    pub token: String,
    pub username: String,
    pub password: String,
}

/// The outcome of the user-name check, given whether an account already holds the name.
pub open spec fn username_check(name_taken: bool) -> Result<(), ApiError> {
    if name_taken {
        Err(ApiError::UserAlreadyExists)
    } else {
        Ok(())
    }
}

/// Refuses a user name that an existing account already holds.
pub fn check_username_free(name_taken: bool) -> (outcome: Result<(), ApiError>)
    ensures
        outcome == username_check(name_taken),
{
    if name_taken {
        Err(ApiError::UserAlreadyExists)
    } else {
        Ok(())
    }
}

/// The account stored for a new user: the name, the password hash, and no permissions.
pub fn new_user(username: String, password_hash: String) -> (user: User)
    ensures
        user._id is None,
        user.username == username,
        user.password == Some(password_hash),
        user.permissions@.len() == 0,
{
    User { _id: None, username, password: Some(password_hash), permissions: Vec::new() }
}

/// A newly created account holds no permission, so it is refused every
/// administrative operation until an administrator grants it one.
pub proof fn lemma_new_user_not_administrator(user: User)
    requires
        user.permissions@.len() == 0,
    ensures
        admin_gate(user.permissions@) == Err::<(), ApiError>(ApiError::PermissionDenied),
{
}

/// Some account of `users` holds the user name `name`.
pub open spec fn name_taken(users: Seq<User>, name: Seq<char>) -> bool {
    exists|i: int| 0 <= i < users.len() && #[trigger] users[i].username@ == name
}

/// No two accounts of `users` hold the same user name.
pub open spec fn names_distinct(users: Seq<User>) -> bool {
    forall|i: int, j: int| 0 <= i < j < users.len() ==> #[trigger] users[i].username@ != #[trigger] users[j].username@
}

/// The accounts after an admitted creation request whose name check had
/// `outcome`: the new account is added only when the check passed.
pub open spec fn after_add_user(users: Seq<User>, outcome: Result<(), ApiError>, user: User) -> Seq<User> {
    if outcome is Ok {
        users.push(user)
    } else {
        users
    }
}

/// Account creation keeps user names distinct and adds at most one account:
/// the name check runs against the stored accounts, and the account stored
/// is the one `new_user` builds for that name.
pub proof fn lemma_add_user_keeps_names_distinct(users: Seq<User>, name: String, user: User)
    requires
        names_distinct(users),
        user.username == name,
    ensures
        names_distinct(after_add_user(users, username_check(name_taken(users, name@)), user)),
        after_add_user(users, username_check(name_taken(users, name@)), user).len() <= users.len() + 1,
{
    let after = after_add_user(users, username_check(name_taken(users, name@)), user);
    if !name_taken(users, name@) {
        assert forall|i: int, j: int| 0 <= i < j < after.len() implies #[trigger] after[i].username@ != #[trigger] after[j].username@ by {
            if j == users.len() {
                assert(after[i] == users[i]);
                assert(after[j] == user);
            } else {
                assert(after[i] == users[i] && after[j] == users[j]);
            }
        }
    }
}

} // verus!
