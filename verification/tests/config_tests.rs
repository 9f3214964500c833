use logs_api::config::{parse_i32, Config, ConfigError};

fn s(v: &str) -> Option<String> {
    Some(v.to_string())
}

fn full(max_age: &str, auto: Option<String>) -> Result<Config, ConfigError> {
    Config::from_values(
        s("mongodb://localhost:27017"),
        s("logs"),
        s("user-secret"),
        s("service-secret"),
        s(max_age),
        s("saltsalt"),
        s("rootpw"),
        auto,
    )
}

#[test]
fn parse_i32_accepts_plain_and_signed_decimals() {
    assert_eq!(parse_i32("42"), Some(42));
    assert_eq!(parse_i32("0"), Some(0));
    assert_eq!(parse_i32("-7"), Some(-7));
    assert_eq!(parse_i32("+5"), Some(5));
    assert_eq!(parse_i32("007"), Some(7));
    assert_eq!(parse_i32("2147483647"), Some(2147483647));
    assert_eq!(parse_i32("-2147483648"), Some(-2147483648));
}

#[test]
fn parse_i32_refuses_what_str_parse_refuses() {
    for text in ["", "-", "+", "2147483648", "-2147483649", "99999999999999999999", "12a", " 1", "1 ", "--1", "+-1", "1.5", "٣"] {
        assert_eq!(parse_i32(text), None, "{text:?}");
        assert!(text.parse::<i32>().is_err());
    }
}

#[test]
fn parse_i32_agrees_with_str_parse() {
    for text in ["1", "-1", "+0", "-0", "86400", "30", "-2147483648", "2147483647", "000000000000000000001"] {
        assert_eq!(parse_i32(text), text.parse::<i32>().ok(), "{text:?}");
    }
}

#[test]
fn config_built_from_all_values() {
    let config = full("30", s("true")).unwrap();
    assert_eq!(config.database_url, "mongodb://localhost:27017");
    assert_eq!(config.database_name, "logs");
    assert_eq!(config.jwt_user_secret, "user-secret");
    assert_eq!(config.jwt_service_secret, "service-secret");
    assert_eq!(config.jwt_user_max_age, 30);
    assert_eq!(config.password_salt, "saltsalt");
    assert_eq!(config.root_user_password, "rootpw");
    assert!(config.auto_update_root_user);
}

#[test]
fn config_auto_update_only_for_true() {
    assert!(!full("30", None).unwrap().auto_update_root_user);
    assert!(!full("30", s("TRUE")).unwrap().auto_update_root_user);
    assert!(!full("30", s("1")).unwrap().auto_update_root_user);
}

#[test]
fn config_reports_first_missing_variable() {
    let r = Config::from_values(None, None, None, None, None, None, None, None);
    assert_eq!(r.unwrap_err(), ConfigError::MissingDatabaseUrl);
    let r = Config::from_values(s("u"), None, None, None, None, None, None, None);
    assert_eq!(r.unwrap_err(), ConfigError::MissingDatabaseName);
    let r = Config::from_values(s("u"), s("n"), None, None, s("x"), None, None, None);
    assert_eq!(r.unwrap_err(), ConfigError::MissingJwtUserSecret);
    let r = Config::from_values(s("u"), s("n"), s("a"), None, None, None, None, None);
    assert_eq!(r.unwrap_err(), ConfigError::MissingJwtServiceSecret);
    let r = Config::from_values(s("u"), s("n"), s("a"), s("b"), None, None, None, None);
    assert_eq!(r.unwrap_err(), ConfigError::MissingJwtUserMaxAge);
    let r = Config::from_values(s("u"), s("n"), s("a"), s("b"), s("x"), None, None, None);
    assert_eq!(r.unwrap_err(), ConfigError::MissingPasswordSalt);
    let r = Config::from_values(s("u"), s("n"), s("a"), s("b"), s("x"), s("c"), None, None);
    assert_eq!(r.unwrap_err(), ConfigError::MissingRootUserPassword);
    let r = Config::from_values(s("u"), s("n"), s("a"), s("b"), s("x"), s("c"), s("d"), None);
    assert_eq!(r.unwrap_err(), ConfigError::InvalidJwtUserMaxAge);
}

#[test]
fn config_error_messages() {
    assert_eq!(ConfigError::MissingDatabaseUrl.message(), "DATABASE_URL must be set");
    assert_eq!(ConfigError::MissingJwtUserSecret.message(), "JWT_SECRET must be set");
    assert_eq!(ConfigError::MissingRootUserPassword.message(), "ROOT_USER_PASSWORD must be set");
    assert_eq!(ConfigError::InvalidJwtUserMaxAge.message(), "JWT_USER_MAX_AGE must be an i32");
}
