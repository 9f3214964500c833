//! Permission lookup in a user's permission list.
use vstd::prelude::*;

verus! {

/// Whether `list` holds a string equal to `item`.
pub open spec fn list_has(list: Seq<String>, item: Seq<char>) -> bool {
    exists|i: int| 0 <= i < list.len() && #[trigger] list[i]@ == item
}

/// Returns whether `list` holds a string equal to `item`.
pub fn list_contains(list: &Vec<String>, item: &String) -> (found: bool)
    ensures
        found == list_has(list@, item@),
{
    let mut i: usize = 0;
    while i < list.len()
        invariant
            i <= list@.len(),
            forall|k: int| 0 <= k < i ==> #[trigger] list@[k]@ != item@,
        decreases list@.len() - i,
    {
        if list[i] == *item {
            return true;
        }
        i = i + 1;
    }
    false
}

/// The permission that grants the administrator operations.
pub fn administrator_permission() -> (permission: String)
    ensures
        permission@ == "administrator"@,
{
    "administrator".to_owned()
}

/// Returns whether a user whose stored permissions are `user_permissions`
/// holds `permission`.
pub fn has_permission(user_permissions: &Vec<String>, permission: &String) -> (granted: bool)
    ensures
        granted == list_has(user_permissions@, permission@),
{
    list_contains(user_permissions, permission)
}

} // verus!
