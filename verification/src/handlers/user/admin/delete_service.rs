//! Body of the service-deletion request.
use vstd::prelude::*;

verus! {

/// Body of a service-deletion request.
#[derive(Debug, Clone)]
pub struct DeleteServiceInput {
    pub token: String,
    pub app_id: String,
}

} // verus!
