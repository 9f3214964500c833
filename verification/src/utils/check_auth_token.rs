//! Validity of a user session token.
use vstd::prelude::*;

use crate::structs::JwtUserClaims;
use crate::utils::clock::{judging_instant, CALENDAR_END};

verus! {

/// A token expiring at `exp` is still valid at Unix time `now`: the expiry is
/// compared with `now` read as an unsigned size.
pub open spec fn unexpired(exp: usize, now: i64) -> bool {
    !(exp < (now as usize))
}

/// A session token is valid at `now` when its signature checked out (its
/// claims were decoded) and it has not expired.
pub open spec fn session_valid(decoded: Option<JwtUserClaims>, now: i64) -> bool {
    decoded matches Some(claims) && unexpired(claims.exp, now)
}

/// Whether the session token with the decoded claims `decoded` (`None` when
/// decoding or signature checking failed) is valid at Unix time `now`.
pub fn check_auth_token_at(decoded: &Option<JwtUserClaims>, now: i64) -> (valid: bool)
    ensures
        valid == session_valid(*decoded, now),
{
    match decoded {
        Some(claims) => !(claims.exp < now as usize),
        None => false,
    }
}

/// Whether the session token with the decoded claims `decoded` is valid now.
/// The clock decides the expiry part; when it cannot be read, only a token
/// that is valid at every instant passes. A token that failed to decode is
/// never valid, and a token that is valid at every instant is valid.
pub fn check_auth_token(decoded: &Option<JwtUserClaims>) -> (valid: bool)
    ensures
        valid ==> decoded is Some,
        (forall|now: i64| #[trigger] session_valid(*decoded, now)) ==> valid,
        exists|now: i64| (0 <= now < CALENDAR_END || now == -1) && valid == #[trigger] session_valid(*decoded, now),
{
    let now = judging_instant();
    check_auth_token_at(decoded, now)
}

/// Judged at a Unix second that fits the unsigned size, a session is valid
/// exactly when that second is at or before its expiry: a session issued to
/// expire at second `exp` stays valid through second `exp` and not after.
pub proof fn lemma_session_valid_up_to_expiry(claims: JwtUserClaims, now: i64)
    requires
        0 <= now <= usize::MAX,
    ensures
        session_valid(Some(claims), now) <==> now <= claims.exp,
{
}

} // verus!
