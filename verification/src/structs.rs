//! Records exchanged with clients and stored in the database.
use vstd::prelude::*;

verus! {

/// Claims carried by a user session token.
#[derive(Debug, Clone, PartialEq, Eq)]
pub struct JwtUserClaims {
    pub exp: usize,
    pub user_id: String,
}

/// Claims carried by a service (log producer) token.
#[derive(Debug, Clone, PartialEq, Eq)]
pub struct JwtServiceClaims {
    pub exp: usize,
    pub app_id: String,
    pub timestamp: i64,
}

/// A request body that holds only a session token.
#[derive(Debug, Clone, PartialEq, Eq)]
pub struct AuthTokenJSON {
    pub token: String,
}

/// One log message as stored and as returned to clients.
#[derive(Debug, Clone, PartialEq, Eq)]
pub struct Log {
    pub _id: Option<String>,
    pub app_id: Option<String>,
    pub type_: Option<String>,
    pub message: String,
    pub timestamp: Option<i64>,
}

/// A registered log producer.
#[derive(Debug, Clone, PartialEq, Eq)]
pub struct Service {
    pub _id: Option<String>,
    pub app_name: Option<String>,
}

/// A user account.
#[derive(Debug, Clone, PartialEq, Eq)]
pub struct User {
    pub _id: Option<String>,
    pub username: String,
    pub password: Option<String>,
    pub permissions: Vec<String>,
}

/// A log type with its presentation and notification settings.
#[derive(Debug, Clone, PartialEq, Eq)]
pub struct Type {
    pub _id: Option<String>,
    pub name: String,
    pub color: String,
    pub icon: String,
    pub importance: i32,
    pub notifications: Vec<String>,
}

} // verus!
