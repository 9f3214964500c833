use logs_api::access::{require_administrator, require_service, require_session, require_session_at};
use logs_api::response::ApiError;
use logs_api::structs::{JwtServiceClaims, JwtUserClaims};
use logs_api::utils::check_auth_token::{check_auth_token, check_auth_token_at};
use logs_api::utils::get_token_data::{get_token_data, get_token_data_at};
use logs_api::utils::has_permission::{administrator_permission, has_permission, list_contains};
use logs_api::utils::logs_service_side::check_service_token::check_service_token;
use logs_api::utils::logs_service_side::get_service_token_data::{get_service_token_data, get_service_token_data_at};

fn user(exp: usize, id: &str) -> JwtUserClaims {
    JwtUserClaims { exp, user_id: id.to_string() }
}

fn service(exp: usize, app: &str, timestamp: i64) -> JwtServiceClaims {
    JwtServiceClaims { exp, app_id: app.to_string(), timestamp }
}

#[test]
fn session_valid_until_expiry() {
    let claims = Some(user(1000, "u1"));
    assert!(check_auth_token_at(&claims, 999));
    assert!(check_auth_token_at(&claims, 1000));
    assert!(!check_auth_token_at(&claims, 1001));
    assert!(!check_auth_token_at(&None, 0));
}

#[test]
fn session_negative_now_reads_as_huge_size() {
    // the clock value is compared as an unsigned size
    assert!(!check_auth_token_at(&Some(user(1000, "u1")), -1));
}

#[test]
fn session_check_against_clock() {
    assert!(check_auth_token(&Some(user(usize::MAX, "u1"))));
    assert!(!check_auth_token(&Some(user(0, "u1"))));
    assert!(!check_auth_token(&None));
}

#[test]
fn token_data_of_valid_and_invalid_tokens() {
    assert_eq!(get_token_data_at(&Some(user(50, "abc")), 10), user(50, "abc"));
    assert_eq!(get_token_data_at(&Some(user(5, "abc")), 10), user(0, ""));
    assert_eq!(get_token_data_at(&None, 10), user(0, ""));
    assert_eq!(get_token_data(&Some(user(usize::MAX, "abc"))), user(usize::MAX, "abc"));
    assert_eq!(get_token_data(&Some(user(1, "abc"))), user(0, ""));
    assert_eq!(get_token_data(&None), user(0, ""));
}

#[test]
fn service_token_data() {
    let c = service(100, "app", 5);
    assert_eq!(get_service_token_data_at(Some(c.clone()), 100), Some(c.clone()));
    assert_eq!(get_service_token_data_at(Some(c.clone()), 101), None);
    assert_eq!(get_service_token_data_at(None, 0), None);
    assert_eq!(get_service_token_data(Some(c)), None);
    let forever = service(usize::MAX, "app", 5);
    assert_eq!(get_service_token_data(Some(forever.clone())), Some(forever));
}

#[test]
fn service_token_against_revocation() {
    let c = Some(service(0, "app", 100));
    assert!(check_service_token(&c, None));
    assert!(check_service_token(&c, Some(100)));
    assert!(check_service_token(&c, Some(99)));
    assert!(!check_service_token(&c, Some(101)));
    assert!(!check_service_token(&None, None));
}

#[test]
fn permissions_lookup() {
    let perms = vec!["reader".to_string(), "administrator".to_string()];
    assert!(has_permission(&perms, &"administrator".to_string()));
    assert!(!has_permission(&perms, &"writer".to_string()));
    assert!(!has_permission(&vec![], &"administrator".to_string()));
    assert!(!list_contains(&perms, &"Administrator".to_string()));
    assert_eq!(administrator_permission(), "administrator");
}

#[test]
fn session_gate() {
    assert_eq!(require_session_at(&Some(user(10, "u")), 10), Ok("u".to_string()));
    assert_eq!(require_session_at(&Some(user(10, "u")), 11), Err(ApiError::InvalidToken));
    assert_eq!(require_session_at(&None, 0), Err(ApiError::InvalidToken));
    assert_eq!(require_session(&Some(user(usize::MAX, "u"))), Ok("u".to_string()));
    assert_eq!(require_session(&None), Err(ApiError::InvalidToken));
}

#[test]
fn admin_gate() {
    assert_eq!(require_administrator(&vec!["administrator".to_string()]), Ok(()));
    assert_eq!(require_administrator(&vec!["user".to_string()]), Err(ApiError::PermissionDenied));
    assert_eq!(require_administrator(&vec![]), Err(ApiError::PermissionDenied));
}

#[test]
fn service_gate() {
    let c = Some(service(0, "app", 100));
    assert_eq!(require_service(&c, Some(50)), Ok(()));
    assert_eq!(require_service(&c, Some(150)), Err(ApiError::InvalidToken));
    assert_eq!(require_service(&None, None), Err(ApiError::InvalidToken));
}

#[test]
fn error_replies() {
    assert_eq!(ApiError::InvalidToken.message(), "Invalid token or token expired");
    assert_eq!(ApiError::InvalidToken.error_code(), "invalid_token");
    assert_eq!(ApiError::PermissionDenied.message(), "You don't have administrator permission");
    assert_eq!(ApiError::PermissionDenied.error_code(), "permission_denied");
    assert_eq!(ApiError::InvalidCredentials.message(), "Invalid username or password");
    assert_eq!(ApiError::InvalidCredentials.error_code(), "invalid_credentials");
    assert_eq!(ApiError::UserAlreadyExists.message(), "User already exists");
    assert_eq!(ApiError::UserAlreadyExists.error_code(), "user_already_exists");
    assert_eq!(ApiError::ExpiryOutOfRange.message(), "Session expiry is out of range");
    assert_eq!(ApiError::ExpiryOutOfRange.error_code(), "expiry_out_of_range");
    assert_eq!(ApiError::ClockUnavailable.message(), "The server clock cannot be read");
    assert_eq!(ApiError::ClockUnavailable.error_code(), "clock_unavailable");
}
