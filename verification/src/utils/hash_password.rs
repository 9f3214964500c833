//! Password hashing with Argon2 under the service-wide salt.
use vstd::prelude::*;
use vstd::utf8::encode_utf8;

verus! {

/// The character of the standard Base64 alphabet for the six-bit value `v`.
pub open spec fn b64_digit(v: int) -> char {
    if v < 26 {
        (65 + v) as char
    } else if v < 52 {
        (97 + v - 26) as char
    } else if v < 62 {
        (48 + v - 52) as char
    } else if v == 62 {
        '+'
    } else {
        '/'
    }
}

/// Standard Base64 without padding: each three bytes become four characters,
/// a trailing one or two bytes become two or three.
pub open spec fn b64_unpadded(bytes: Seq<u8>) -> Seq<char>
    decreases bytes.len(),
{
    if bytes.len() == 0 {
        Seq::empty()
    } else {
        let b0 = bytes[0] as int;
        let b1 = if bytes.len() > 1 { bytes[1] as int } else { 0 };
        let b2 = if bytes.len() > 2 { bytes[2] as int } else { 0 };
        if bytes.len() == 1 {
            seq![b64_digit(b0 / 4), b64_digit((b0 % 4) * 16)]
        } else if bytes.len() == 2 {
            seq![b64_digit(b0 / 4), b64_digit((b0 % 4) * 16 + b1 / 16), b64_digit((b1 % 16) * 4)]
        } else {
            seq![
                b64_digit(b0 / 4),
                b64_digit((b0 % 4) * 16 + b1 / 16),
                b64_digit((b1 % 16) * 4 + b2 / 64),
                b64_digit(b2 % 64),
            ] + b64_unpadded(bytes.subrange(3, bytes.len() as int))
        }
    }
}

/// The Base64 salt text made of the UTF-8 bytes of `salt`.
pub open spec fn salt_b64(salt: Seq<char>) -> Seq<char> {
    b64_unpadded(encode_utf8(salt))
}

/// The PHC string that `argon2::Argon2::default().hash_password` gives for the
/// UTF-8 bytes of `password` and the Base64 salt `salt_b64`, or `None` when it
/// refuses them (that is when the salt text does not decode to 8 bytes or
/// more, or the password has more than `u32::MAX` bytes).
pub uninterp spec fn argon2_phc_hash(password: Seq<char>, salt_b64: Seq<char>) -> Option<Seq<char>>;

/// How a PHC string of `Argon2::default()` opens: the algorithm argon2id,
/// version 19 (0x13), and the default costs m = 19456 KiB, t = 2, p = 1.
pub open spec fn phc_prefix() -> Seq<char> {
    "$argon2id$v=19$m=19456,t=2,p=1$"@
}

/// The view of an optional string.
pub open spec fn opt_view(s: Option<String>) -> Option<Seq<char>> {
    match s {
        Some(t) => Some(t@),
        None => None,
    }
}

/// `password_hash::SaltString::encode_b64` on the UTF-8 bytes of `salt`,
/// returned as text: standard unpadded Base64 (`base64ct::Base64Unpadded`).
/// Its source encodes into a 64-byte buffer and fails exactly when the text,
/// `(4n + 2) / 3` characters for `n` bytes, does not fit, that is when `n > 48`.
#[verifier::external_body]
fn encode_salt(salt: &str) -> (encoded: Option<String>)
    ensures
        encoded is Some <==> encode_utf8(salt@).len() <= 48,
        encoded matches Some(e) ==> e@ == salt_b64(salt@),
{
    argon2::password_hash::SaltString::encode_b64(salt.as_bytes()).ok().map(|s| s.as_str().to_string())
}

/// `argon2::Argon2::default().hash_password` on the UTF-8 bytes of `password`
/// and the Base64 salt `salt` (taken as a `password_hash::Salt` by
/// `Salt::from_b64`), rendered as a PHC string. The result is a function of the
/// two arguments alone and is named `argon2_phc_hash`. For a salt text that
/// is the Base64 of some bytes, the sources show when it succeeds:
/// `Salt::from_b64` takes 4 to 64 Base64 characters, and `hash_password`
/// refuses a salt that decodes to fewer than 8 bytes and a password of more
/// than `u32::MAX` bytes; the default parameters and output length never fail.
/// `PasswordHash`'s `Display` writes `$`, the algorithm, `$v=` and the
/// version, `$` and the parameters, `$` and the salt text, `$` and the hash.
#[verifier::external_body]
fn argon2_hash(password: &str, salt: &str) -> (hash: Option<String>)
    ensures
        opt_view(hash) == argon2_phc_hash(password@, salt@),
        hash matches Some(h) ==> (phc_prefix() + salt@ + "$"@).is_prefix_of(h@),
        ((exists|bytes: Seq<u8>| #[trigger] b64_unpadded(bytes) == salt@ && 8 <= bytes.len() <= 48)
            && encode_utf8(password@).len() <= 0xFFFF_FFFF) ==> hash is Some,
        (exists|bytes: Seq<u8>| #[trigger] b64_unpadded(bytes) == salt@ && bytes.len() < 8) ==> hash is None,
        encode_utf8(password@).len() > 0xFFFF_FFFF ==> hash is None,
{
    let salt = argon2::password_hash::Salt::from_b64(salt).ok()?;
    argon2::password_hash::PasswordHasher::hash_password(&argon2::Argon2::default(), password.as_bytes(), salt)
        .ok()
        .map(|h| h.to_string())
}

/// The stored form of `password` under the service salt `salt`: the Argon2
/// PHC string, or `None` where the salt cannot be encoded or Argon2 refuses
/// the inputs.
pub open spec fn password_hash_of(password: Seq<char>, salt: Seq<char>) -> Option<Seq<char>> {
    if encode_utf8(salt).len() <= 48 {
        argon2_phc_hash(password, salt_b64(salt))
    } else {
        None
    }
}

/// Hashes `password` with Argon2 (default parameters) under the salt made
/// from the bytes of `salt`; it succeeds exactly when the salt has 8 to 48
/// bytes and the password at most `u32::MAX` bytes.
pub fn hash_password(password: &String, salt: &String) -> (hash: Option<String>)
    ensures
        opt_view(hash) == password_hash_of(password@, salt@),
        hash matches Some(h) ==> (phc_prefix() + salt_b64(salt@) + "$"@).is_prefix_of(h@),
        hash is Some <==> (8 <= encode_utf8(salt@).len() <= 48 && encode_utf8(password@).len() <= 0xFFFF_FFFF),
{
    match encode_salt(salt.as_str()) {
        Some(encoded) => argon2_hash(password.as_str(), encoded.as_str()),
        None => None,
    }
}

} // verus!
