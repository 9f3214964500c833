use argon2::password_hash::{PasswordHasher, SaltString};
use logs_api::utils::hash_password::hash_password;

fn s(v: &str) -> String {
    v.to_string()
}

#[test]
fn hash_matches_argon2_directly() {
    let salt = SaltString::encode_b64(b"service-salt").unwrap();
    let expected = argon2::Argon2::default().hash_password(b"hunter42", &salt).unwrap().to_string();
    assert_eq!(hash_password(&s("hunter42"), &s("service-salt")), Some(expected.clone()));
    assert!(expected.starts_with("$argon2id$v=19$"));
    assert_ne!(expected, "hunter42");
}

#[test]
fn hash_is_deterministic_and_depends_on_inputs() {
    let a = hash_password(&s("pw"), &s("saltsalt")).unwrap();
    let b = hash_password(&s("pw"), &s("saltsalt")).unwrap();
    let c = hash_password(&s("pw2"), &s("saltsalt")).unwrap();
    let d = hash_password(&s("pw"), &s("saltsalt2")).unwrap();
    assert_eq!(a, b);
    assert_ne!(a, c);
    assert_ne!(a, d);
}

#[test]
fn hash_refuses_short_salt() {
    // fewer than 8 salt bytes: Argon2 refuses
    assert_eq!(hash_password(&s("pw"), &s("abc")), None);
    assert_eq!(hash_password(&s("pw"), &s("1234567")), None);
    assert!(hash_password(&s("pw"), &s("12345678")).is_some());
}

#[test]
fn hash_refuses_salt_over_48_bytes() {
    let at_limit = "x".repeat(48);
    let over = "x".repeat(49);
    assert!(hash_password(&s("pw"), &at_limit).is_some());
    assert_eq!(hash_password(&s("pw"), &over), None);
}

#[test]
fn hash_carries_salt_in_unpadded_base64() {
    let hash = hash_password(&s("pw"), &s("saltsalt")).unwrap();
    assert!(hash.starts_with("$argon2id$v=19$m=19456,t=2,p=1$c2FsdHNhbHQ$"));
    let hash = hash_password(&s("pw"), &s("\u{ff}\u{ff}\u{ff}\u{ff}")).unwrap();
    // four two-byte characters: eight salt bytes
    assert!(hash.contains("$w7/Dv8O/w78$"));
}
