//! Acceptance of a service token against the revocation record of its application.
use vstd::prelude::*;

use crate::structs::JwtServiceClaims;

verus! {

/// A service token is accepted when it decoded and was not issued before the
/// last revocation recorded for its application (`last_expired_date`, absent
/// when the application never had its token regenerated).
pub open spec fn service_token_accepted(decoded: Option<JwtServiceClaims>, last_expired_date: Option<i64>) -> bool {
    decoded matches Some(claims) && !(last_expired_date matches Some(date) && date > claims.timestamp)
}

/// Whether the service token with decoded claims `decoded` (`None` when decoding
/// or signature checking failed) is accepted, given the revocation date stored
/// for its application.
pub fn check_service_token(decoded: &Option<JwtServiceClaims>, last_expired_date: Option<i64>) -> (accepted: bool)
    ensures
        accepted == service_token_accepted(*decoded, last_expired_date),
{
    match decoded {
        None => false,
        Some(claims) => match last_expired_date {
            None => true,
            Some(date) => !(date > claims.timestamp),
        },
    }
}

} // verus!
