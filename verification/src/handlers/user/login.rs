//! Login: a user found by name and password hash gets a session token that
//! expires a configured number of days later.
use vstd::prelude::*;

use crate::access::session_gate;
use crate::response::ApiError;
use crate::structs::JwtUserClaims;
use crate::utils::check_auth_token::session_valid;
use crate::utils::clock::{current_timestamp, timestamp_after_days, within_calendar, CALENDAR_END};

verus! {

/// Body of a login request.
#[derive(Debug, Clone)]
pub struct LoginInput {
    pub username: String,
    pub password: String,
}

/// The outcome of a login given the id of the user found by name and password
/// hash (`None` when no user matched) and the session expiry in Unix seconds
/// (`None` when the clock library could not compute it).
pub open spec fn login_outcome(found_user_id: Option<String>, expiry: Option<i64>) -> Result<JwtUserClaims, ApiError> {
    match found_user_id {
        None => Err(ApiError::InvalidCredentials),
        Some(user_id) => match expiry {
            Some(exp) => Ok(JwtUserClaims { exp: exp as usize, user_id }),
            None => Err(ApiError::ExpiryOutOfRange),
        },
    }
}

/// The session claims for a login, given the user found (if any) and the
/// session expiry.
pub fn session_claims(found_user_id: Option<String>, expiry: Option<i64>) -> (outcome: Result<JwtUserClaims, ApiError>)
    ensures
        outcome == login_outcome(found_user_id, expiry),
{
    match found_user_id {
        None => Err(ApiError::InvalidCredentials),
        Some(user_id) => match expiry {
            Some(exp) => Ok(JwtUserClaims { exp: exp as usize, user_id }),
            None => Err(ApiError::ExpiryOutOfRange),
        },
    }
}

/// The expiry, as an unsigned size, of a session opened at `now` for `days` days.
pub open spec fn session_expiry(now: i64, days: i32) -> usize {
    (now + 86400 * days) as usize
}

/// The login outcome at Unix time `now` for sessions of `max_age_days` days:
/// the claims expire `max_age_days` days after `now`; a found user always gets
/// them when `now` and the expiry lie well inside the calendar range.
pub fn login_at(found_user_id: Option<String>, now: i64, max_age_days: i32) -> (outcome: Result<JwtUserClaims, ApiError>)
    ensures
        found_user_id is None ==> outcome == Err::<JwtUserClaims, ApiError>(ApiError::InvalidCredentials),
        found_user_id matches Some(user_id) ==> match outcome {
            Ok(claims) => claims.user_id == user_id && claims.exp == session_expiry(now, max_age_days),
            Err(e) => e == ApiError::ExpiryOutOfRange,
        },
        (found_user_id is Some && within_calendar(now as int) && within_calendar(now + 86400 * max_age_days))
            ==> outcome == Ok::<JwtUserClaims, ApiError>(
            JwtUserClaims { exp: session_expiry(now, max_age_days), user_id: found_user_id->0 },
        ),
{
    let expiry = timestamp_after_days(now, max_age_days);
    session_claims(found_user_id, expiry)
}

/// The login outcome now, for sessions of `max_age_days` days; a found user
/// is refused with `ClockUnavailable` when the clock cannot be read.
pub fn login(found_user_id: Option<String>, max_age_days: i32) -> (outcome: Result<JwtUserClaims, ApiError>)
    ensures
        found_user_id is None ==> outcome == Err::<JwtUserClaims, ApiError>(ApiError::InvalidCredentials),
        outcome matches Ok(claims) ==> found_user_id == Some(claims.user_id),
        outcome matches Ok(claims) ==> exists|now: i64|
            0 <= now < CALENDAR_END && claims.exp == #[trigger] session_expiry(now, max_age_days),
        found_user_id is Some ==> (outcome matches Err(e) ==> (e == ApiError::ExpiryOutOfRange || e
            == ApiError::ClockUnavailable)),
{
    if found_user_id.is_none() {
        return Err(ApiError::InvalidCredentials);
    }
    match current_timestamp() {
        Some(now) => login_at(found_user_id, now, max_age_days),
        None => Err(ApiError::ClockUnavailable),
    }
}

/// A session opened at `now` for `days` days is admitted exactly up to its
/// expiry `now + 86400 * days` (for instants that fit the unsigned size the
/// expiry is compared in), and admits its own user.
pub proof fn lemma_login_session_window(claims: JwtUserClaims, now: i64, days: i32, t: i64)
    requires
        claims.exp == ((now + 86400 * days) as usize),
        0 <= now + 86400 * days <= usize::MAX,
        0 <= t <= usize::MAX,
    ensures
        session_valid(Some(claims), t) <==> t <= now + 86400 * days,
        t <= now + 86400 * days ==> session_gate(Some(claims), t) == Ok::<String, ApiError>(claims.user_id),
{
}

} // verus!
