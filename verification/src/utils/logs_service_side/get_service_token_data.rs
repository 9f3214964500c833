//! Claims of a valid service token.
use vstd::prelude::*;

use crate::structs::JwtServiceClaims;
use crate::utils::check_auth_token::unexpired;
use crate::utils::clock::{judging_instant, CALENDAR_END};

verus! {

/// The claims of a service token at `now`: present when it decoded and has not expired.
pub open spec fn service_token_data(decoded: Option<JwtServiceClaims>, now: i64) -> Option<JwtServiceClaims> {
    match decoded {
        Some(claims) => if unexpired(claims.exp, now) { Some(claims) } else { None },
        None => None,
    }
}

/// The claims of the service token with decoded claims `decoded` at Unix time `now`.
pub fn get_service_token_data_at(decoded: Option<JwtServiceClaims>, now: i64) -> (data: Option<JwtServiceClaims>)
    ensures
        data == service_token_data(decoded, now),
{
    match decoded {
        Some(claims) => {
            if claims.exp < now as usize {
                None
            } else {
                Some(claims)
            }
        },
        None => None,
    }
}

/// The claims of the service token with decoded claims `decoded`, now; the
/// clock decides the expiry (when it cannot be read, only a token unexpired
/// at every instant passes), and a token unexpired at every instant keeps its claims.
pub fn get_service_token_data(decoded: Option<JwtServiceClaims>) -> (data: Option<JwtServiceClaims>)
    ensures
        data is Some ==> data == decoded,
        decoded is None ==> data is None,
        (decoded matches Some(claims) && (forall|now: i64| #[trigger] unexpired(claims.exp, now))) ==> data == decoded,
        exists|now: i64| (0 <= now < CALENDAR_END || now == -1) && data == #[trigger] service_token_data(decoded, now),
{
    let now = judging_instant();
    get_service_token_data_at(decoded, now)
}

} // verus!
