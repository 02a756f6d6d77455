//! HTTP statuses used by the service and the severity each one is logged at.

use vstd::prelude::*;

verus! {

/// Severity of a log record.
#[derive(Clone, Copy, Debug, PartialEq, Eq, Structural)]
pub enum LogLevel {
    Info,
    Error,
}

/// The statuses a response of this service can carry.
#[derive(Clone, Copy, Debug, PartialEq, Eq, Structural)]
pub enum Status {
    Success,
    BadRequest,
    Conflict,
    PayloadTooLarge,
    InternalServerError,
}

impl Status {
    /// Numeric HTTP status code.
    pub open spec fn spec_code(self) -> u16 {
        match self {
            Status::Success => 200,
            Status::BadRequest => 400,
            Status::Conflict => 409,
            Status::PayloadTooLarge => 413,
            Status::InternalServerError => 500,
        }
    }

    #[verifier::when_used_as_spec(spec_code)]
    pub fn code(self) -> (code: u16)
        ensures
            code == self.spec_code(),
    {
        match self {
            Status::Success => 200,
            Status::BadRequest => 400,
            Status::Conflict => 409,
            Status::PayloadTooLarge => 413,
            Status::InternalServerError => 500,
        }
    }
}

/// Severity at which a response with the given status code is logged.
///
/// The table is explicit: 400, 409, 413 and 500 are errors, every other code,
/// 200 included, is informational.
pub open spec fn log_level_for_status(status_code: u16) -> LogLevel {
    if status_code == 400 || status_code == 409 || status_code == 413 || status_code == 500 {
        LogLevel::Error
    } else {
        LogLevel::Info
    }
}

pub fn get_log_level_from_status(status_code: u16) -> (level: LogLevel)
    ensures
        level == log_level_for_status(status_code),
{
    match status_code {
        200 => LogLevel::Info,
        400 => LogLevel::Error,
        409 => LogLevel::Error,
        413 => LogLevel::Error,
        500 => LogLevel::Error,
        _ => LogLevel::Info,
    }
}

} // verus!
