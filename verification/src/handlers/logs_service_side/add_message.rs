//! Storage form of a log sent by a service: missing timestamp and type are filled in.
use vstd::prelude::*;

use crate::response::ApiError;
use crate::structs::Log;
use crate::utils::clock::current_timestamp_millis;

verus! {

/// A log as sent by a service; the type is sent under the key `type`.
#[derive(Debug, Clone, PartialEq, Eq)]
pub struct LogInput {
    pub _id: Option<String>,
    pub app_id: Option<String>,
    pub type_: Option<String>,
    pub message: String,
    pub timestamp: Option<i64>,
}

/// Body of a log submission.
#[derive(Debug, Clone, PartialEq, Eq)]
pub struct AddMessageInput {
    pub token: String,
    pub log: LogInput,
}

/// `log` is what is stored for `input` when the clock reads `now_millis`
/// (Unix milliseconds): the sent application, message, type and timestamp,
/// the type "default" and the current time where none was sent, no id.
pub open spec fn stored_log(input: LogInput, now_millis: i64, log: Log) -> bool {
    &&& log._id is None
    &&& log.app_id == input.app_id
    &&& log.message == input.message
    &&& log.timestamp == Some(
        match input.timestamp {
            Some(t) => t,
            None => now_millis,
        },
    )
    &&& log.type_ matches Some(type_) && type_@ == match input.type_ {
        Some(sent) => sent@,
        None => "default"@,
    }
}

/// The log stored for `input` when the clock reads `now_millis`.
pub fn complete_log(input: LogInput, now_millis: i64) -> (log: Log)
    ensures
        stored_log(input, now_millis, log),
        log.message == input.message,
        log.app_id == input.app_id,
        input.timestamp is Some ==> log.timestamp == input.timestamp,
{
    let timestamp = match input.timestamp {
        Some(t) => t,
        None => now_millis,
    };
    let type_ = match input.type_ {
        Some(sent) => sent,
        None => "default".to_owned(),
    };
    Log { _id: None, app_id: input.app_id, type_: Some(type_), message: input.message, timestamp: Some(timestamp) }
}

/// The log stored for `input`; the clock is read only when no timestamp was
/// sent, and the log is refused with `ClockUnavailable` when it cannot be read.
pub fn add_message_log(input: LogInput) -> (log: Result<Log, ApiError>)
    ensures
        log matches Ok(l) ==> exists|now_millis: i64|
            (input.timestamp is Some || now_millis >= 0) && #[trigger] stored_log(input, now_millis, l),
        input.timestamp matches Some(t) ==> (log matches Ok(l) && stored_log(input, t, l)),
        log matches Err(e) ==> e == ApiError::ClockUnavailable && input.timestamp is None,
        log matches Ok(l) ==> l.message == input.message && l.app_id == input.app_id,
{
    let now_millis = match input.timestamp {
        Some(t) => t,
        None => match current_timestamp_millis() {
            Some(ms) => ms,
            None => return Err(ApiError::ClockUnavailable),
        },
    };
    Ok(complete_log(input, now_millis))
}

/// A stored log always carries a timestamp and a type, so log queries can
/// order and filter it; the message and application are stored exactly as
/// sent, whatever their length, and a timestamp or type that was sent is
/// stored unchanged.
pub proof fn lemma_stored_log_complete(input: LogInput, now_millis: i64, log: Log)
    requires
        stored_log(input, now_millis, log),
    ensures
        log.timestamp is Some,
        log.type_ is Some,
        log.message == input.message,
        log.message@.len() == input.message@.len(),
        log.app_id == input.app_id,
        input.timestamp is Some ==> log.timestamp == input.timestamp,
        input.type_ is Some ==> log.type_->0@ == input.type_->0@,
{
}

} // verus!
