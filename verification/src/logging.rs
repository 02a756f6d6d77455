//! Log records for requests and responses.
//!
//! The records are built here and written by the caller. A record never holds
//! a request body: where one would be logged, a fixed marker stands instead.

use vstd::prelude::*;
use vstd::string::*;
use crate::context::{RequestMetadata, RequestMetadataView, ServerConfig};
use crate::response::{HttpResponse, HttpResponseView};
use crate::text::text_view;
use crate::status::{get_log_level_from_status, log_level_for_status, LogLevel};

verus! {

/// Stands in a request record in place of a body that holds credentials.
pub const CREDENTIALS_REDACTED: &'static str = "User credentials redacted";

/// Stands in a request record in place of a body that was too large.
pub const PAYLOAD_TOO_LARGE_TO_DISPLAY: &'static str = "Payload too large to display . . .";

/// Stands in a request record in place of a client address that could not be
/// resolved.
pub const UNRESOLVED_ADDRESS: &'static str = "unknown";

/// Calls `chrono::Utc::now` and converts the instant to milliseconds since
/// the Unix epoch with `DateTime::timestamp_millis`. The call stops the thread
/// where the system clock stands before 1970.
///
/// Trusted, and nothing is claimed: the result is whatever the system clock
/// says.
#[verifier::external_body]
fn utc_now_millis() -> i64 {
    chrono::Utc::now().timestamp_millis()
}

/// The record of a request that arrived.
#[derive(Clone, Debug, PartialEq, Eq)]
pub struct HttpRequestLog {
    /// Milliseconds since the Unix epoch, UTC.
    pub timestamp: i64,
    pub log_level: LogLevel,
    /// The client's address, or `UNRESOLVED_ADDRESS`.
    pub originating_ip_addr: String,
    pub api: String,
    pub restful_method: String,
    pub payload_size_in_bytes: Option<usize>,
    pub body_as_utf8_str: Option<String>,
}

pub struct HttpRequestLogView {
    pub timestamp: i64,
    pub log_level: LogLevel,
    pub originating_ip_addr: Seq<char>,
    pub api: Seq<char>,
    pub restful_method: Seq<char>,
    pub payload_size_in_bytes: Option<usize>,
    pub body_as_utf8_str: Option<Seq<char>>,
}

impl View for HttpRequestLog {
    type V = HttpRequestLogView;

    open spec fn view(&self) -> HttpRequestLogView {
        HttpRequestLogView {
            timestamp: self.timestamp,
            log_level: self.log_level,
            originating_ip_addr: self.originating_ip_addr@,
            api: self.api@,
            restful_method: self.restful_method@,
            payload_size_in_bytes: self.payload_size_in_bytes,
            body_as_utf8_str: text_view(self.body_as_utf8_str),
        }
    }
}

/// The record of a response that was sent.
#[derive(Clone, Debug, PartialEq, Eq)]
pub struct HttpResponseLog {
    /// Milliseconds since the Unix epoch, UTC.
    pub timestamp: i64,
    pub log_level: LogLevel,
    pub originating_ip_addr: String,
    pub response_status_code: u16,
    pub body_as_utf8_str: Option<String>,
}

pub struct HttpResponseLogView {
    pub timestamp: i64,
    pub log_level: LogLevel,
    pub originating_ip_addr: Seq<char>,
    pub response_status_code: u16,
    pub body_as_utf8_str: Option<Seq<char>>,
}

impl View for HttpResponseLog {
    type V = HttpResponseLogView;

    open spec fn view(&self) -> HttpResponseLogView {
        HttpResponseLogView {
            timestamp: self.timestamp,
            log_level: self.log_level,
            originating_ip_addr: self.originating_ip_addr@,
            response_status_code: self.response_status_code,
            body_as_utf8_str: text_view(self.body_as_utf8_str),
        }
    }
}

/// The address a request is recorded under: the client's, or a marker where
/// that could not be resolved. An unresolved address never stops a request.
pub open spec fn originating_address(metadata: RequestMetadataView) -> Seq<char> {
    match metadata.remote_addr {
        Some(address) => address,
        None => UNRESOLVED_ADDRESS@,
    }
}

/// The request record written at `timestamp` for a request with the given
/// metadata, at the given severity and with the given summary of its body.
pub open spec fn request_log(
    timestamp: i64,
    log_level: LogLevel,
    metadata: RequestMetadataView,
    payload_size_in_bytes: Option<usize>,
    body: Option<Seq<char>>,
) -> HttpRequestLogView {
    HttpRequestLogView {
        timestamp,
        log_level,
        originating_ip_addr: originating_address(metadata),
        api: metadata.path,
        restful_method: metadata.method,
        payload_size_in_bytes,
        body_as_utf8_str: body,
    }
}

/// The response record written at `timestamp` for a response sent from
/// `server_addr`. Its severity follows from the status code, and the body is
/// recorded as sent.
pub open spec fn response_log(
    timestamp: i64,
    server_addr: Seq<char>,
    response: HttpResponseView,
) -> HttpResponseLogView {
    HttpResponseLogView {
        timestamp,
        log_level: log_level_for_status(response.status_code),
        originating_ip_addr: server_addr,
        response_status_code: response.status_code,
        body_as_utf8_str: response.body,
    }
}

fn clone_text(text: &Option<String>) -> (copy: Option<String>)
    ensures
        text_view(copy) == text_view(*text),
{
    match text {
        Some(text) => Some(text.clone()),
        None => None,
    }
}

/// Builds the request record for a given instant.
pub fn request_log_at(
    timestamp: i64,
    log_level: LogLevel,
    metadata: &RequestMetadata,
    payload_size_in_bytes: Option<usize>,
    body_as_utf8_str: Option<String>,
) -> (log: HttpRequestLog)
    ensures
        log@ == request_log(
            timestamp,
            log_level,
            metadata@,
            payload_size_in_bytes,
            text_view(body_as_utf8_str),
        ),
{
    let originating_ip_addr = match &metadata.remote_addr {
        Some(address) => address.clone(),
        None => UNRESOLVED_ADDRESS.to_owned(),
    };
    HttpRequestLog {
        timestamp,
        log_level,
        originating_ip_addr,
        api: metadata.path.clone(),
        restful_method: metadata.method.clone(),
        payload_size_in_bytes,
        body_as_utf8_str,
    }
}

/// Builds the response record for a given instant.
pub fn response_log_at(timestamp: i64, response: &HttpResponse, config: &ServerConfig) -> (log:
    HttpResponseLog)
    ensures
        log@ == response_log(timestamp, config.server_addr@, response@),
{
    HttpResponseLog {
        timestamp,
        log_level: get_log_level_from_status(response.status_code),
        originating_ip_addr: config.server_addr.clone(),
        response_status_code: response.status_code,
        body_as_utf8_str: clone_text(&response.body),
    }
}

/// Builds the record of a request, stamped with the current time.
pub fn capture_request_log(
    log_level: LogLevel,
    metadata: &RequestMetadata,
    payload_size_in_bytes: Option<usize>,
    body_as_utf8_str: Option<String>,
) -> (log: HttpRequestLog)
    ensures
        log@ == request_log(
            log.timestamp,
            log_level,
            metadata@,
            payload_size_in_bytes,
            text_view(body_as_utf8_str),
        ),
{
    request_log_at(utc_now_millis(), log_level, metadata, payload_size_in_bytes, body_as_utf8_str)
}

/// Builds the record of a response, stamped with the current time.
pub fn capture_response_log(response: &HttpResponse, config: &ServerConfig) -> (log:
    HttpResponseLog)
    ensures
        log@ == response_log(log.timestamp, config.server_addr@, response@),
{
    response_log_at(utc_now_millis(), response, config)
}

} // verus!
