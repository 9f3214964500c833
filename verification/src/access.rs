//! Admission of requests: a valid session for user operations, a valid session
//! of an administrator for administrative ones, an unrevoked service token
//! for log producers.
use vstd::prelude::*;

use crate::response::ApiError;
use crate::structs::{JwtServiceClaims, JwtUserClaims};
use crate::utils::check_auth_token::{check_auth_token_at, session_valid};
use crate::utils::clock::{judging_instant, CALENDAR_END};
use crate::utils::has_permission::{administrator_permission, has_permission, list_has};
use crate::utils::logs_service_side::check_service_token::{check_service_token, service_token_accepted};

verus! {

/// The outcome of the session check at `now`: the user id of a valid session,
/// otherwise the invalid-token refusal.
pub open spec fn session_gate(decoded: Option<JwtUserClaims>, now: i64) -> Result<String, ApiError> {
    if session_valid(decoded, now) {
        Ok(decoded->0.user_id)
    } else {
        Err(ApiError::InvalidToken)
    }
}

/// The outcome of the administrator check on the stored permissions of the
/// session user.
pub open spec fn admin_gate(permissions: Seq<String>) -> Result<(), ApiError> {
    if list_has(permissions, "administrator"@) {
        Ok(())
    } else {
        Err(ApiError::PermissionDenied)
    }
}

/// The outcome of the service-token check.
pub open spec fn service_gate(decoded: Option<JwtServiceClaims>, last_expired_date: Option<i64>) -> Result<(), ApiError> {
    if service_token_accepted(decoded, last_expired_date) {
        Ok(())
    } else {
        Err(ApiError::InvalidToken)
    }
}

/// Admits a request with the session token whose decoded claims are `decoded`
/// at Unix time `now`, giving the session's user id.
pub fn require_session_at(decoded: &Option<JwtUserClaims>, now: i64) -> (outcome: Result<String, ApiError>)
    ensures
        outcome == session_gate(*decoded, now),
{
    if check_auth_token_at(decoded, now) {
        match decoded {
            Some(claims) => Ok(claims.user_id.clone()),
            None => Err(ApiError::InvalidToken),
        }
    } else {
        Err(ApiError::InvalidToken)
    }
}

/// Admits a request with the session token whose decoded claims are `decoded`,
/// now; the clock decides the expiry, and when it cannot be read only a
/// session valid at every instant is admitted.
pub fn require_session(decoded: &Option<JwtUserClaims>) -> (outcome: Result<String, ApiError>)
    ensures
        outcome matches Ok(user_id) ==> decoded matches Some(claims) && user_id == claims.user_id,
        outcome matches Err(e) ==> e == ApiError::InvalidToken,
        decoded is None ==> outcome is Err,
        (forall|now: i64| #[trigger] session_valid(*decoded, now)) ==> outcome == Ok::<String, ApiError>(
            decoded->0.user_id,
        ),
        exists|now: i64| (0 <= now < CALENDAR_END || now == -1) && outcome == #[trigger] session_gate(*decoded, now),
{
    let now = judging_instant();
    require_session_at(decoded, now)
}

/// Admits an administrative request of a user whose stored permissions are
/// `permissions`.
pub fn require_administrator(permissions: &Vec<String>) -> (outcome: Result<(), ApiError>)
    ensures
        outcome == admin_gate(permissions@),
{
    let admin = administrator_permission();
    if has_permission(permissions, &admin) {
        Ok(())
    } else {
        Err(ApiError::PermissionDenied)
    }
}

/// Admits a log producer's request with the service token whose decoded
/// claims are `decoded`, given the revocation date stored for its application.
pub fn require_service(decoded: &Option<JwtServiceClaims>, last_expired_date: Option<i64>) -> (outcome: Result<(), ApiError>)
    ensures
        outcome == service_gate(*decoded, last_expired_date),
{
    if check_service_token(decoded, last_expired_date) {
        Ok(())
    } else {
        Err(ApiError::InvalidToken)
    }
}

/// An administrative request goes through both checks exactly when its session
/// token decoded, has not expired at `now`, and the stored permissions of the
/// token's user hold "administrator"; a request refused at the session check
/// gets the invalid-token reply, one refused at the permission check the
/// permission-denied reply.
pub proof fn lemma_admin_admission(decoded: Option<JwtUserClaims>, now: i64, permissions: Seq<String>)
    ensures
        (session_gate(decoded, now) is Ok && admin_gate(permissions) is Ok) <==> (decoded matches Some(
            claims,
        ) && !(claims.exp < (now as usize)) && list_has(permissions, "administrator"@)),
        session_gate(decoded, now) matches Ok(user_id) ==> user_id == decoded->0.user_id,
        session_gate(decoded, now) matches Err(e) ==> e == ApiError::InvalidToken,
        admin_gate(permissions) matches Err(e) ==> e == ApiError::PermissionDenied,
{
}

} // verus!
