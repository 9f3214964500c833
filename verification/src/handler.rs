//! Request bodies of the first API version.
use vstd::prelude::*;

verus! {

/// Body of a login request.
#[derive(Debug, Clone)]
pub struct LoginInput {
    pub username: String,
    pub password: String,
}

/// Body of a token-issuing request of a service.
#[allow(non_camel_case_types)]
#[derive(Debug, Clone)]
pub struct Encode_Token_Input {
    pub app_id: String,
    pub auth: String,
}

} // verus!
