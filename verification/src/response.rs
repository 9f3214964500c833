//! Error replies of the service: each has a fixed message and error code.
use vstd::prelude::*;

verus! {

/// The ways a request is refused.
#[derive(Debug, Clone, Copy, PartialEq, Eq, Structural)]
pub enum ApiError {
    /// The session or service token did not decode, has expired or was revoked.
    InvalidToken,
    /// The session user lacks the administrator permission.
    PermissionDenied,
    /// No user has this name and password.
    InvalidCredentials,
    /// An account with this user name exists already.
    UserAlreadyExists,
    /// The session expiry falls outside the calendar range of the clock library.
    ExpiryOutOfRange,
    /// The server clock cannot be read as a date.
    ClockUnavailable,
}

impl ApiError {
    /// The human-readable message of the reply.
    pub open spec fn spec_message(self) -> Seq<char> {
        match self {
            ApiError::InvalidToken => "Invalid token or token expired"@,
            ApiError::PermissionDenied => "You don't have administrator permission"@,
            ApiError::InvalidCredentials => "Invalid username or password"@,
            ApiError::UserAlreadyExists => "User already exists"@,
            ApiError::ExpiryOutOfRange => "Session expiry is out of range"@,
            ApiError::ClockUnavailable => "The server clock cannot be read"@,
        }
    }

    /// The machine-readable code of the reply.
    pub open spec fn spec_error_code(self) -> Seq<char> {
        match self {
            ApiError::InvalidToken => "invalid_token"@,
            ApiError::PermissionDenied => "permission_denied"@,
            ApiError::InvalidCredentials => "invalid_credentials"@,
            ApiError::UserAlreadyExists => "user_already_exists"@,
            ApiError::ExpiryOutOfRange => "expiry_out_of_range"@,
            ApiError::ClockUnavailable => "clock_unavailable"@,
        }
    }

    /// The human-readable message of the reply.
    pub fn message(&self) -> (message: String)
        ensures
            message@ == self.spec_message(),
    {
        match self {
            ApiError::InvalidToken => "Invalid token or token expired".to_owned(),
            ApiError::PermissionDenied => "You don't have administrator permission".to_owned(),
            ApiError::InvalidCredentials => "Invalid username or password".to_owned(),
            ApiError::UserAlreadyExists => "User already exists".to_owned(),
            ApiError::ExpiryOutOfRange => "Session expiry is out of range".to_owned(),
            ApiError::ClockUnavailable => "The server clock cannot be read".to_owned(),
        }
    }

    /// The machine-readable code of the reply.
    pub fn error_code(&self) -> (code: String)
        ensures
            code@ == self.spec_error_code(),
    {
        match self {
            ApiError::InvalidToken => "invalid_token".to_owned(),
            ApiError::PermissionDenied => "permission_denied".to_owned(),
            ApiError::InvalidCredentials => "invalid_credentials".to_owned(),
            ApiError::UserAlreadyExists => "user_already_exists".to_owned(),
            ApiError::ExpiryOutOfRange => "expiry_out_of_range".to_owned(),
            ApiError::ClockUnavailable => "clock_unavailable".to_owned(),
        }
    }
}

} // verus!
