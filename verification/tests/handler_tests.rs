use logs_api::handlers::logs_service_side::add_message::{add_message_log, complete_log, LogInput};
use logs_api::handlers::logs_user_side::admin::regenerate_service_token::{
    issue_service_token_at, regenerate_service_token, regenerate_service_token_at, SERVICE_TOKEN_LIFETIME,
};
use logs_api::handlers::user::admin::add_user::{check_username_free, new_user};
use logs_api::handlers::user::admin::get_users::listed_user;
use logs_api::handlers::user::login::{login, login_at, session_claims};
use logs_api::response::ApiError;
use logs_api::structs::{JwtUserClaims, Log};
use logs_api::userconfig::{root_user, root_user_action, RootUserAction};
use logs_api::utils::check_auth_token::check_auth_token_at;
use logs_api::utils::logs_service_side::check_service_token::check_service_token;
use logs_api::access::require_administrator;

#[test]
fn login_refuses_unknown_user() {
    assert_eq!(login_at(None, 1_700_000_000, 30), Err(ApiError::InvalidCredentials));
    assert_eq!(login(None, 30), Err(ApiError::InvalidCredentials));
    assert_eq!(session_claims(None, Some(5)), Err(ApiError::InvalidCredentials));
}

#[test]
fn login_session_expires_after_max_age_days() {
    let claims = login_at(Some("64b7f0".to_string()), 1_700_000_000, 30).unwrap();
    assert_eq!(claims, JwtUserClaims { exp: 1_702_592_000, user_id: "64b7f0".to_string() });
    assert!(check_auth_token_at(&Some(claims.clone()), 1_702_592_000));
    assert!(!check_auth_token_at(&Some(claims), 1_702_592_001));
}

#[test]
fn login_with_negative_max_age_is_already_expired() {
    let claims = login_at(Some("u".to_string()), 1_700_000_000, -1).unwrap();
    assert_eq!(claims.exp, 1_699_913_600);
    assert!(!check_auth_token_at(&Some(claims), 1_700_000_000));
}

#[test]
fn login_expiry_beyond_calendar_range() {
    assert_eq!(login_at(Some("u".to_string()), 1_700_000_000, i32::MAX), Err(ApiError::ExpiryOutOfRange));
    assert_eq!(session_claims(Some("u".to_string()), None), Err(ApiError::ExpiryOutOfRange));
}

#[test]
fn login_now_gives_valid_session() {
    let claims = login(Some("u".to_string()), 1).unwrap();
    assert_eq!(claims.user_id, "u");
    let now = chrono::Utc::now().timestamp();
    assert!(claims.exp as i64 >= now + 86_400 - 5 && claims.exp as i64 <= now + 86_400 + 5);
}

#[test]
fn regenerated_token_replaces_older_ones() {
    let issue = issue_service_token_at("app1".to_string(), 1_000_000);
    assert_eq!(issue.claims.app_id, "app1");
    assert_eq!(issue.claims.timestamp, 1_000_000);
    assert_eq!(issue.claims.exp, (1_000_000 + 315_360_000) as usize);
    assert_eq!(SERVICE_TOKEN_LIFETIME, 315_360_000);
    assert_eq!(issue.expired_date, 999_999);
    assert!(check_service_token(&Some(issue.claims.clone()), Some(issue.expired_date)));
    let mut old = issue.claims.clone();
    old.timestamp = 999_998;
    assert!(!check_service_token(&Some(old.clone()), Some(issue.expired_date)));
    old.timestamp = 999_999;
    assert!(check_service_token(&Some(old), Some(issue.expired_date)));
}

#[test]
fn regenerate_now() {
    let issue = regenerate_service_token("app2".to_string()).unwrap();
    let now = chrono::Utc::now().timestamp();
    assert!((issue.claims.timestamp - now).abs() <= 5);
    assert_eq!(issue.expired_date, issue.claims.timestamp - 1);
    assert_eq!(issue.claims.exp, (issue.claims.timestamp + 315_360_000) as usize);
}

fn input(type_: Option<&str>, timestamp: Option<i64>) -> LogInput {
    LogInput {
        _id: Some("ignored".to_string()),
        app_id: Some("app".to_string()),
        type_: type_.map(|t| t.to_string()),
        message: "disk full".to_string(),
        timestamp,
    }
}

#[test]
fn log_defaults_filled() {
    let log = complete_log(input(None, None), 1234);
    assert_eq!(
        log,
        Log {
            _id: None,
            app_id: Some("app".to_string()),
            type_: Some("default".to_string()),
            message: "disk full".to_string(),
            timestamp: Some(1234),
        }
    );
}

#[test]
fn log_sent_values_kept() {
    let log = complete_log(input(Some("error"), Some(77)), 1234);
    assert_eq!(log.type_, Some("error".to_string()));
    assert_eq!(log.timestamp, Some(77));
    assert_eq!(log._id, None);
    let log = add_message_log(input(Some("warn"), Some(5))).unwrap();
    assert_eq!(log.timestamp, Some(5));
    assert_eq!(log.type_, Some("warn".to_string()));
}

#[test]
fn log_stamped_with_clock_in_millis() {
    let before = chrono::Utc::now().timestamp_millis();
    let log = add_message_log(input(None, None)).unwrap();
    let after = chrono::Utc::now().timestamp_millis();
    let t = log.timestamp.unwrap();
    assert!(before <= t && t <= after);
    assert_eq!(log.type_, Some("default".to_string()));
}

#[test]
fn new_accounts() {
    assert_eq!(check_username_free(true), Err(ApiError::UserAlreadyExists));
    assert_eq!(check_username_free(false), Ok(()));
    let u = new_user("alice".to_string(), "$argon2id$hash".to_string());
    assert_eq!(u.username, "alice");
    assert_eq!(u.password, Some("$argon2id$hash".to_string()));
    assert!(u.permissions.is_empty());
    assert_eq!(u._id, None);
    assert_eq!(require_administrator(&u.permissions), Err(ApiError::PermissionDenied));
}

#[test]
fn listed_users_hide_password() {
    let u = listed_user("id1".to_string(), "bob".to_string(), vec!["administrator".to_string()]);
    assert_eq!(u.password, None);
    assert_eq!(u._id, Some("id1".to_string()));
    assert_eq!(u.permissions, vec!["administrator".to_string()]);
}

#[test]
fn root_account_provisioning() {
    assert_eq!(root_user_action(false, false), RootUserAction::Create);
    assert_eq!(root_user_action(false, true), RootUserAction::Create);
    assert_eq!(root_user_action(true, true), RootUserAction::UpdatePassword);
    assert_eq!(root_user_action(true, false), RootUserAction::Keep);
    let root = root_user("h".to_string());
    assert_eq!(root.username, "root");
    assert_eq!(root.permissions, vec!["administrator".to_string()]);
    assert_eq!(root.password, Some("h".to_string()));
    assert_eq!(require_administrator(&root.permissions), Ok(()));
}

#[test]
fn regenerate_at_edges_of_range() {
    let issue = regenerate_service_token_at("a".to_string(), 10).unwrap();
    assert_eq!(issue.claims.timestamp, 10);
    assert_eq!(issue.expired_date, 9);
    assert!(regenerate_service_token_at("a".to_string(), i64::MIN).is_none());
    assert!(regenerate_service_token_at("a".to_string(), i64::MAX - SERVICE_TOKEN_LIFETIME + 1).is_none());
    assert!(regenerate_service_token_at("a".to_string(), i64::MAX - SERVICE_TOKEN_LIFETIME).is_some());
}

#[test]
fn login_succeeds_within_calendar_bound() {
    let bound: i64 = 8_000_000_000_000;
    let claims = login_at(Some("u".to_string()), bound, 0).unwrap();
    assert_eq!(claims.exp, bound as usize);
    let claims = login_at(Some("u".to_string()), 0, -92_592_592).unwrap();
    assert_eq!(claims.exp, (-92_592_592i64 * 86_400) as usize);
}

#[test]
fn sent_negative_timestamp_kept() {
    let log = add_message_log(input(None, Some(-5))).unwrap();
    assert_eq!(log.timestamp, Some(-5));
}
