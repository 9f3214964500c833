//! Body of the log-type edit request.
use vstd::prelude::*;

verus! {

/// Body of a log-type edit request: the type's id and its new settings.
#[derive(Debug, Clone)]
pub struct EditTypeInput {
    pub token: String,
    pub type_id: String,
    pub name: String,
    pub color: String,
    pub icon: String,
    pub notifications: Vec<String>,
    pub importance: i32,
}

} // verus!
