//! Start-up provisioning of the root account.
use vstd::prelude::*;

use crate::access::admin_gate;
use crate::structs::User;
use crate::utils::has_permission::administrator_permission;

verus! {

/// What start-up does about the root account.
#[derive(Debug, Clone, Copy, PartialEq, Eq, Structural)]
pub enum RootUserAction {
    /// No account exists: create the root account.
    Create,
    /// Accounts exist and the settings ask for it: reset the root password.
    UpdatePassword,
    /// Leave the accounts alone.
    Keep,
}

/// The action start-up takes: create the root account when there is no
/// account, else reset the root password when the settings ask for it.
pub open spec fn startup_action(any_user_exists: bool, auto_update_root_user: bool) -> RootUserAction {
    if !any_user_exists {
        RootUserAction::Create
    } else if auto_update_root_user {
        RootUserAction::UpdatePassword
    } else {
        RootUserAction::Keep
    }
}

/// The action start-up takes, given whether any account exists and whether
/// the settings ask to update the root password.
pub fn root_user_action(any_user_exists: bool, auto_update_root_user: bool) -> (action: RootUserAction)
    ensures
        action == startup_action(any_user_exists, auto_update_root_user),
{
    if !any_user_exists {
        RootUserAction::Create
    } else if auto_update_root_user {
        RootUserAction::UpdatePassword
    } else {
        RootUserAction::Keep
    }
}

/// The root account created at start-up: name "root", the given password
/// hash, and the administrator permission alone.
pub fn root_user(password_hash: String) -> (user: User)
    ensures
        user._id is None,
        user.username@ == "root"@,
        user.password == Some(password_hash),
        user.permissions@.len() == 1,
        user.permissions@[0]@ == "administrator"@,
{
    let mut permissions: Vec<String> = Vec::new();
    permissions.push(administrator_permission());
    User { _id: None, username: "root".to_owned(), password: Some(password_hash), permissions }
}

/// The root account created at start-up passes the administrator check.
pub proof fn lemma_root_user_is_administrator(user: User)
    requires
        user.permissions@.len() == 1,
        user.permissions@[0]@ == "administrator"@,
    ensures
        admin_gate(user.permissions@) is Ok,
{
    assert(user.permissions@[0]@ == "administrator"@);
}

/// The account is named "root".
pub open spec fn is_root_name(user: User) -> bool {
    user.username@ == "root"@
}

/// The accounts after the password of the first account named "root" is set to `hash`.
pub open spec fn set_first_root_password(users: Seq<User>, hash: String) -> Seq<User>
    decreases users.len(),
{
    if users.len() == 0 {
        users
    } else if is_root_name(users[0]) {
        users.update(0, User { password: Some(hash), ..users[0] })
    } else {
        seq![users[0]] + set_first_root_password(users.drop_first(), hash)
    }
}

/// The accounts after one start-up, whose root password hashes to `hash` and
/// whose root account, when created, is `root`.
pub open spec fn after_startup(users: Seq<User>, auto_update_root_user: bool, hash: String, root: User) -> Seq<User> {
    match startup_action(users.len() > 0, auto_update_root_user) {
        RootUserAction::Create => seq![root],
        RootUserAction::UpdatePassword => set_first_root_password(users, hash),
        RootUserAction::Keep => users,
    }
}

proof fn lemma_set_first_root_password_twice(users: Seq<User>, hash: String)
    ensures
        set_first_root_password(set_first_root_password(users, hash), hash) == set_first_root_password(users, hash),
        set_first_root_password(users, hash).len() == users.len(),
    decreases users.len(),
{
    if users.len() > 0 {
        if is_root_name(users[0]) {
            let once = set_first_root_password(users, hash);
            assert(is_root_name(once[0]));
            assert(once.update(0, User { password: Some(hash), ..once[0] }) =~= once);
        } else {
            let rest = users.drop_first();
            lemma_set_first_root_password_twice(rest, hash);
            let once = set_first_root_password(users, hash);
            assert(once[0] == users[0]);
            assert(once.drop_first() =~= set_first_root_password(rest, hash));
        }
    }
}

/// Start-up is idempotent: with the same settings (so the same root password
/// hash, as hashing is a function of the password and the salt) and no other
/// write in between, a second start-up leaves the accounts as the first left
/// them.
pub proof fn lemma_startup_idempotent(users: Seq<User>, auto_update_root_user: bool, hash: String, root: User)
    requires
        is_root_name(root),
        root.password == Some(hash),
    ensures
        after_startup(after_startup(users, auto_update_root_user, hash, root), auto_update_root_user, hash, root)
            == after_startup(users, auto_update_root_user, hash, root),
{
    lemma_set_first_root_password_twice(users, hash);
    let once = after_startup(users, auto_update_root_user, hash, root);
    if users.len() == 0 {
        if auto_update_root_user {
            let created = seq![root];
            assert(User { password: Some(hash), ..root } == root);
            assert(set_first_root_password(created, hash) =~= created);
        }
    }
}

} // verus!
