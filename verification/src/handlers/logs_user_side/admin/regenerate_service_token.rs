//! Regeneration of an application's service token: a new token is issued and
//! every token issued before it is revoked.
use vstd::prelude::*;

use crate::structs::JwtServiceClaims;
use crate::response::ApiError;
use crate::utils::clock::{current_timestamp, CALENDAR_END};
use crate::utils::logs_service_side::check_service_token::service_token_accepted;

verus! {

/// Body of a token-regeneration request.
#[derive(Debug, Clone, PartialEq, Eq)]
pub struct RegenerateServiceTokenInput {
    pub token: String,
    pub app_id: String,
}

/// How long a service token lasts: ten years of 365 days, in seconds.
pub const SERVICE_TOKEN_LIFETIME: i64 = 60 * 60 * 24 * 365 * 10;

/// What a regeneration produces: the claims of the new token and the
/// revocation date to store for the application.
#[derive(Debug, Clone, PartialEq, Eq)]
pub struct ServiceTokenIssue {
    pub claims: JwtServiceClaims,
    pub expired_date: i64,
}

/// The issue made at Unix time `now` for application `app_id`: a token
/// stamped `now` that expires `SERVICE_TOKEN_LIFETIME` seconds later, and the
/// revocation date `now - 1`.
pub open spec fn issued_at(issue: ServiceTokenIssue, app_id: String, now: i64) -> bool {
    &&& issue.claims.app_id == app_id
    &&& issue.claims.exp == ((now + SERVICE_TOKEN_LIFETIME) as usize)
    &&& issue.claims.timestamp == now
    &&& issue.expired_date == now - 1
}

/// The instants at which a token can be issued without overflow.
pub open spec fn issuable(now: i64) -> bool {
    i64::MIN < now && now <= i64::MAX - SERVICE_TOKEN_LIFETIME
}

/// Issues a new token for `app_id` at Unix time `now`.
pub fn issue_service_token_at(app_id: String, now: i64) -> (issue: ServiceTokenIssue)
    requires
        issuable(now),
    ensures
        issued_at(issue, app_id, now),
{
    let exp = now + SERVICE_TOKEN_LIFETIME;
    ServiceTokenIssue {
        claims: JwtServiceClaims { app_id, exp: exp as usize, timestamp: now },
        expired_date: now - 1,
    }
}

/// Issues a new token for `app_id` at Unix time `now`; `None` when at `now`
/// the expiry or the revocation date would overflow.
pub fn regenerate_service_token_at(app_id: String, now: i64) -> (issue: Option<ServiceTokenIssue>)
    ensures
        issuable(now) ==> (issue matches Some(i) && issued_at(i, app_id, now)),
        !issuable(now) ==> issue is None,
{
    if now > i64::MIN && now <= i64::MAX - SERVICE_TOKEN_LIFETIME {
        Some(issue_service_token_at(app_id, now))
    } else {
        None
    }
}

/// `issue` was made for `app_id` at some instant the clock can give.
pub open spec fn issued_by_clock(issue: ServiceTokenIssue, app_id: String) -> bool {
    exists|now: i64| 0 <= now < CALENDAR_END && #[trigger] issued_at(issue, app_id, now)
}

/// Issues a new token for `app_id` now. Every instant the clock can give lies
/// where a token can be issued, so the only refusal is a clock that cannot be
/// read.
pub fn regenerate_service_token(app_id: String) -> (issue: Result<ServiceTokenIssue, ApiError>)
    ensures
        issue matches Ok(i) ==> issued_by_clock(i, app_id),
        issue matches Err(e) ==> e == ApiError::ClockUnavailable,
{
    match current_timestamp() {
        Some(now) => {
            let ghost id = app_id;
            let issue = issue_service_token_at(app_id, now);
            assert(issued_by_clock(issue, id));
            Ok(issue)
        },
        None => Err(ApiError::ClockUnavailable),
    }
}

/// After a regeneration at `now`, the new token is accepted, and any token of
/// the application is accepted exactly when it was stamped no earlier than
/// the stored revocation date `now - 1`.
pub proof fn lemma_regeneration_revokes_earlier_tokens(
    issue: ServiceTokenIssue,
    app_id: String,
    now: i64,
    other: JwtServiceClaims,
)
    requires
        issuable(now),
        issued_at(issue, app_id, now),
    ensures
        service_token_accepted(Some(issue.claims), Some(issue.expired_date)),
        service_token_accepted(Some(other), Some(issue.expired_date)) <==> other.timestamp >= now - 1,
{
}

} // verus!
