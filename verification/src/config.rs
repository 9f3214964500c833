//! Service settings, built from the values of the environment variables.
use vstd::prelude::*;

verus! {

/// Settings read from the environment at start-up.
#[derive(Debug, Clone, PartialEq, Eq)]
pub struct Config {
    pub database_url: String,
    pub database_name: String,
    pub jwt_user_secret: String,
    pub jwt_service_secret: String,
    pub jwt_user_max_age: i32,
    pub password_salt: String,
    pub root_user_password: String,
    pub auto_update_root_user: bool,
}

/// Why the settings could not be built.
#[derive(Debug, Clone, Copy, PartialEq, Eq, Structural)]
pub enum ConfigError {
    MissingDatabaseUrl,
    MissingDatabaseName,
    MissingJwtUserSecret,
    MissingJwtServiceSecret,
    MissingJwtUserMaxAge,
    MissingPasswordSalt,
    MissingRootUserPassword,
    /// `JWT_USER_MAX_AGE` is not a decimal `i32`.
    InvalidJwtUserMaxAge,
}

impl ConfigError {
    /// The message of the failure.
    pub open spec fn spec_message(self) -> Seq<char> {
        match self {
            ConfigError::MissingDatabaseUrl => "DATABASE_URL must be set"@,
            ConfigError::MissingDatabaseName => "DATABASE_NAME must be set"@,
            ConfigError::MissingJwtUserSecret => "JWT_SECRET must be set"@,
            ConfigError::MissingJwtServiceSecret => "JWT_SERVICE_SECRET must be set"@,
            ConfigError::MissingJwtUserMaxAge => "JWT_USER_MAX_AGE must be set"@,
            ConfigError::MissingPasswordSalt => "PASSWORD_SALT must be set"@,
            ConfigError::MissingRootUserPassword => "ROOT_USER_PASSWORD must be set"@,
            ConfigError::InvalidJwtUserMaxAge => "JWT_USER_MAX_AGE must be an i32"@,
        }
    }

    /// The message of the failure.
    pub fn message(&self) -> (message: String)
        ensures
            message@ == self.spec_message(),
    {
        match self {
            ConfigError::MissingDatabaseUrl => "DATABASE_URL must be set".to_owned(),
            ConfigError::MissingDatabaseName => "DATABASE_NAME must be set".to_owned(),
            ConfigError::MissingJwtUserSecret => "JWT_SECRET must be set".to_owned(),
            ConfigError::MissingJwtServiceSecret => "JWT_SERVICE_SECRET must be set".to_owned(),
            ConfigError::MissingJwtUserMaxAge => "JWT_USER_MAX_AGE must be set".to_owned(),
            ConfigError::MissingPasswordSalt => "PASSWORD_SALT must be set".to_owned(),
            ConfigError::MissingRootUserPassword => "ROOT_USER_PASSWORD must be set".to_owned(),
            ConfigError::InvalidJwtUserMaxAge => "JWT_USER_MAX_AGE must be an i32".to_owned(),
        }
    }
}

/// An ASCII decimal digit.
pub open spec fn is_digit(c: char) -> bool {
    '0' <= c && c <= '9'
}

/// Every character of `s` is a decimal digit.
pub open spec fn all_digits(s: Seq<char>) -> bool {
    forall|i: int| 0 <= i < s.len() ==> is_digit(#[trigger] s[i])
}

/// The number written by the decimal digits `s`.
pub open spec fn digits_value(s: Seq<char>) -> int
    decreases s.len(),
{
    if s.len() == 0 {
        0
    } else {
        10 * digits_value(s.drop_last()) + ((s.last() as int) - ('0' as int))
    }
}

/// The length of the sign that may open a decimal integer.
pub open spec fn sign_len(s: Seq<char>) -> int {
    if s.len() > 0 && (s[0] == '+' || s[0] == '-') {
        1
    } else {
        0
    }
}

/// The `i32` that `s` spells as `str::parse::<i32>` reads it: an optional `+`
/// or `-`, then one or more ASCII digits, the value within the range of `i32`.
pub open spec fn parsed_i32(s: Seq<char>) -> Option<i32> {
    let body = s.subrange(sign_len(s), s.len() as int);
    let magnitude = digits_value(body);
    let value = if sign_len(s) == 1 && s[0] == '-' {
        -magnitude
    } else {
        magnitude
    };
    if body.len() > 0 && all_digits(body) && i32::MIN <= value <= i32::MAX {
        Some(value as i32)
    } else {
        None
    }
}

/// The cap under which the running magnitude is kept exact while parsing.
pub open spec fn capped(v: int) -> int {
    if v >= 2147483649 {
        2147483649
    } else {
        v
    }
}

proof fn lemma_digits_push(s: Seq<char>, c: char)
    ensures
        digits_value(s.push(c)) == 10 * digits_value(s) + ((c as int) - ('0' as int)),
{
    assert(s.push(c).drop_last() == s);
}

proof fn lemma_digits_nonneg(s: Seq<char>)
    requires
        all_digits(s),
    ensures
        digits_value(s) >= 0,
    decreases s.len(),
{
    if s.len() > 0 {
        assert(all_digits(s.drop_last()));
        lemma_digits_nonneg(s.drop_last());
        assert(is_digit(s[s.len() - 1]));
    }
}

/// Reads a decimal `i32` as `str::parse::<i32>` does.
pub fn parse_i32(s: &str) -> (value: Option<i32>)
    ensures
        value == parsed_i32(s@),
{
    let ghost cs = s@;
    let ghost sl = sign_len(cs);
    let mut negative = false;
    let mut any = false;
    let mut bad = false;
    let mut magnitude: i64 = 0;
    let mut first = true;
    for c in it: s.chars()
        invariant
            it.seq() == cs,
            sl == sign_len(cs),
            first <==> it.index() == 0,
            it.index() >= sl || (it.index() == 0 && sl == 1),
            it.index() > 0 ==> (negative <==> (sl == 1 && cs[0] == '-')),
            it.index() == 0 ==> !negative,
            it.index() >= sl ==> (any <==> it.index() > sl),
            it.index() == 0 ==> !any && magnitude == 0 && !bad,
            !bad ==> it.index() >= sl ==> all_digits(cs.subrange(sl, it.index())),
            !bad ==> it.index() >= sl ==> magnitude == capped(digits_value(cs.subrange(sl, it.index()))),
            bad ==> it.index() >= sl && !all_digits(cs.subrange(sl, it.index())),
            0 <= magnitude <= 2147483649,
    {
        let ghost i = it.index();
        assert(cs[i] == c);
        if first && (c == '+' || c == '-') {
            negative = c == '-';
            assert(cs.subrange(sl, i + 1).len() == 0);
            assert(digits_value(cs.subrange(sl, i + 1)) == 0);
        } else {
            if bad {
                proof {
                    let before = cs.subrange(sl, i);
                    let after = cs.subrange(sl, i + 1);
                    let k = choose|k: int| 0 <= k < before.len() && !is_digit(before[k]);
                    assert(after[k] == before[k]);
                }
            } else if '0' <= c && c <= '9' {
                let d = (c as u32 - '0' as u32) as i64;
                assert(d == (c as int) - ('0' as int));
                proof {
                    let before = cs.subrange(sl, i);
                    assert(cs.subrange(sl, i + 1) == before.push(c));
                    lemma_digits_push(before, c);
                    lemma_digits_nonneg(before);
                    assert(all_digits(before.push(c))) by {
                        assert forall|k: int| 0 <= k < before.len() + 1 implies is_digit(#[trigger] before.push(c)[k]) by {
                            if k < before.len() {
                                assert(before.push(c)[k] == before[k]);
                            }
                        }
                    }
                }
                if magnitude >= 2147483649 {
                    magnitude = 2147483649;
                } else {
                    let next = magnitude * 10 + d;
                    magnitude = if next >= 2147483649 {
                        2147483649
                    } else {
                        next
                    };
                }
                assert(magnitude == capped(digits_value(cs.subrange(sl, i + 1))));
            } else {
                bad = true;
                proof {
                    let after = cs.subrange(sl, i + 1);
                    assert(after[i - sl] == c);
                }
            }
            any = true;
        }
        first = false;
    }
    let ghost n = cs.len() as int;
    if !any || bad {
        proof {
            if !any && !bad {
                assert(cs.subrange(sl, n).len() == 0);
            }
        }
        return None;
    }
    proof {
        let body = cs.subrange(sl, n);
        lemma_digits_nonneg(body);
    }
    if magnitude >= 2147483649 {
        return None;
    }
    let value: i64 = if negative {
        -magnitude
    } else {
        magnitude
    };
    if value < -2147483648 || value > 2147483647 {
        None
    } else {
        Some(value as i32)
    }
}

/// The settings built from the values of the environment variables
/// `DATABASE_URL`, `DATABASE_NAME`, `JWT_USER_SECRET`, `JWT_SERVICE_SECRET`,
/// `JWT_USER_MAX_AGE`, `PASSWORD_SALT`, `ROOT_USER_PASSWORD` and
/// `AUTO_UPDATE_ROOT_USER`, each `None` when unset; the first unset variable
/// in that order is reported, then a maximum age that is not an `i32`.
pub open spec fn config_from(
    database_url: Option<String>,
    database_name: Option<String>,
    jwt_user_secret: Option<String>,
    jwt_service_secret: Option<String>,
    jwt_user_max_age: Option<String>,
    password_salt: Option<String>,
    root_user_password: Option<String>,
    auto_update_root_user: Option<String>,
) -> Result<Config, ConfigError> {
    if database_url is None {
        Err(ConfigError::MissingDatabaseUrl)
    } else if database_name is None {
        Err(ConfigError::MissingDatabaseName)
    } else if jwt_user_secret is None {
        Err(ConfigError::MissingJwtUserSecret)
    } else if jwt_service_secret is None {
        Err(ConfigError::MissingJwtServiceSecret)
    } else if jwt_user_max_age is None {
        Err(ConfigError::MissingJwtUserMaxAge)
    } else if password_salt is None {
        Err(ConfigError::MissingPasswordSalt)
    } else if root_user_password is None {
        Err(ConfigError::MissingRootUserPassword)
    } else if parsed_i32(jwt_user_max_age->0@) is None {
        Err(ConfigError::InvalidJwtUserMaxAge)
    } else {
        Ok(
            Config {
                database_url: database_url->0,
                database_name: database_name->0,
                jwt_user_secret: jwt_user_secret->0,
                jwt_service_secret: jwt_service_secret->0,
                jwt_user_max_age: parsed_i32(jwt_user_max_age->0@)->0,
                password_salt: password_salt->0,
                root_user_password: root_user_password->0,
                auto_update_root_user: auto_update_root_user matches Some(v) && v@ == "true"@,
            },
        )
    }
}

impl Config {
    /// Builds the settings from the values of the environment variables (see
    /// `config_from`).
    pub fn from_values(
        database_url: Option<String>,
        database_name: Option<String>,
        jwt_user_secret: Option<String>,
        jwt_service_secret: Option<String>,
        jwt_user_max_age: Option<String>,
        password_salt: Option<String>,
        root_user_password: Option<String>,
        auto_update_root_user: Option<String>,
    ) -> (config: Result<Config, ConfigError>)
        ensures
            config == config_from(
                database_url,
                database_name,
                jwt_user_secret,
                jwt_service_secret,
                jwt_user_max_age,
                password_salt,
                root_user_password,
                auto_update_root_user,
            ),
    {
        let database_url = match database_url {
            Some(v) => v,
            None => return Err(ConfigError::MissingDatabaseUrl),
        };
        let database_name = match database_name {
            Some(v) => v,
            None => return Err(ConfigError::MissingDatabaseName),
        };
        let jwt_user_secret = match jwt_user_secret {
            Some(v) => v,
            None => return Err(ConfigError::MissingJwtUserSecret),
        };
        let jwt_service_secret = match jwt_service_secret {
            Some(v) => v,
            None => return Err(ConfigError::MissingJwtServiceSecret),
        };
        let max_age_text = match jwt_user_max_age {
            Some(v) => v,
            None => return Err(ConfigError::MissingJwtUserMaxAge),
        };
        let password_salt = match password_salt {
            Some(v) => v,
            None => return Err(ConfigError::MissingPasswordSalt),
        };
        let root_user_password = match root_user_password {
            Some(v) => v,
            None => return Err(ConfigError::MissingRootUserPassword),
        };
        let auto_update = match &auto_update_root_user {
            Some(v) => {
                let expected = "true".to_owned();
                *v == expected
            },
            None => false,
        };
        let jwt_user_max_age = match parse_i32(max_age_text.as_str()) {
            Some(age) => age,
            None => return Err(ConfigError::InvalidJwtUserMaxAge),
        };
        Ok(
            Config {
                database_url,
                database_name,
                jwt_user_secret,
                jwt_service_secret,
                jwt_user_max_age,
                password_salt,
                root_user_password,
                auto_update_root_user: auto_update,
            },
        )
    }
}

} // verus!
