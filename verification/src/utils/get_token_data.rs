//! Claims of a valid session token.
use vstd::prelude::*;

use crate::structs::JwtUserClaims;
use crate::utils::check_auth_token::{check_auth_token_at, session_valid};
use crate::utils::clock::{judging_instant, CALENDAR_END};

verus! {

/// The claims returned for a token that is not valid: expiry 0, empty user id.
pub open spec fn is_error_claims(claims: JwtUserClaims) -> bool {
    claims.exp == 0 && claims.user_id@ == Seq::<char>::empty()
}

/// The claims of a session token as seen at `now`: its own claims when it is
/// valid, otherwise the error claims.
pub open spec fn token_data(decoded: Option<JwtUserClaims>, now: i64, data: JwtUserClaims) -> bool {
    if session_valid(decoded, now) {
        decoded == Some(data)
    } else {
        is_error_claims(data)
    }
}

/// The claims of a session token at Unix time `now`; for a token that is not
/// valid, claims with expiry 0 and an empty user id.
pub fn get_token_data_at(decoded: &Option<JwtUserClaims>, now: i64) -> (data: JwtUserClaims)
    ensures
        token_data(*decoded, now, data),
{
    if check_auth_token_at(decoded, now) {
        match decoded {
            Some(claims) => JwtUserClaims { exp: claims.exp, user_id: claims.user_id.clone() },
            None => JwtUserClaims { exp: 0, user_id: String::new() },
        }
    } else {
        JwtUserClaims { exp: 0, user_id: String::new() }
    }
}

/// The claims of a session token now; the clock decides whether the token has
/// expired (when it cannot be read, only a token valid at every instant
/// passes), and an expired or undecodable token gives the error claims. A
/// token that is valid at every instant gives its own claims.
pub fn get_token_data(decoded: &Option<JwtUserClaims>) -> (data: JwtUserClaims)
    ensures
        decoded == Some(data) || is_error_claims(data),
        decoded is None ==> is_error_claims(data),
        (forall|now: i64| #[trigger] session_valid(*decoded, now)) ==> decoded == Some(data),
        exists|now: i64| (0 <= now < CALENDAR_END || now == -1) && #[trigger] token_data(*decoded, now, data),
{
    let now = judging_instant();
    get_token_data_at(decoded, now)
}

} // verus!
