//! What the two endpoints share: the size guard, and how a request is
//! answered and turned away.

use vstd::prelude::*;
use vstd::string::*;
use crate::context::{RequestMetadata, RequestMetadataView, ServerConfig};
use crate::logging::{
    capture_request_log, capture_response_log, request_log, response_log, HttpRequestLog,
    HttpResponseLog, PAYLOAD_TOO_LARGE_TO_DISPLAY,
};
use crate::response::{
    error_outcome, rendered, HttpOutcome, HttpOutcomeView, HttpResponse, PipelineError,
    PipelineErrorView,
};
use crate::status::LogLevel;

verus! {

/// Largest request body accepted, in bytes: 128 KiB.
pub const MAX_INCOMING_PAYLOAD_SIZE: usize = 131_072;

/// A response together with the record of it.
#[derive(Clone, Debug, PartialEq, Eq)]
pub struct Answer {
    pub response: HttpResponse,
    pub response_log: HttpResponseLog,
}

/// A request that was turned away: the record of the request, then the answer.
#[derive(Clone, Debug, PartialEq, Eq)]
pub struct Rejection {
    pub request_log: HttpRequestLog,
    pub answer: Answer,
}

/// The answer renders `outcome`, and its record describes that response as
/// sent from `server_addr`.
pub open spec fn answers(answer: Answer, outcome: HttpOutcomeView, server_addr: Seq<char>) -> bool {
    &&& answer.response@ == rendered(outcome)
    &&& answer.response_log@ == response_log(
        answer.response_log.timestamp,
        server_addr,
        rendered(outcome),
    )
}

/// The request record has the given severity and body summary for a request of
/// the given metadata and size.
pub open spec fn records_request(
    log: HttpRequestLog,
    log_level: LogLevel,
    metadata: RequestMetadataView,
    payload_size: usize,
    body: Seq<char>,
) -> bool {
    log@ == request_log(log.timestamp, log_level, metadata, Some(payload_size), Some(body))
}

/// The rejection records the request as described and answers with the
/// outcome of `error`.
pub open spec fn rejects(
    rejection: Rejection,
    log_level: LogLevel,
    metadata: RequestMetadataView,
    payload_size: usize,
    body: Seq<char>,
    error: PipelineErrorView,
    server_addr: Seq<char>,
) -> bool {
    &&& records_request(rejection.request_log, log_level, metadata, payload_size, body)
    &&& answers(rejection.answer, error_outcome(error), server_addr)
}

/// Renders an outcome and records the response.
pub fn response_handler(outcome: HttpOutcome, config: &ServerConfig) -> (answer: Answer)
    ensures
        answers(answer, outcome@, config.server_addr@),
{
    let response = outcome.render();
    let response_log = capture_response_log(&response, config);
    Answer { response, response_log }
}

/// Turns a request away: records it as described, then answers with the
/// outcome of the error.
pub fn reject(
    log_level: LogLevel,
    metadata: &RequestMetadata,
    payload_size: usize,
    body: String,
    error: PipelineError,
    config: &ServerConfig,
) -> (rejection: Rejection)
    ensures
        rejects(
            rejection,
            log_level,
            metadata@,
            payload_size,
            body@,
            error@,
            config.server_addr@,
        ),
{
    let request_log = capture_request_log(log_level, metadata, Some(payload_size), Some(body));
    let answer = response_handler(error.outcome(), config);
    Rejection { request_log, answer }
}

/// Guards against oversized bodies.
///
/// A body of more than `MAX_INCOMING_PAYLOAD_SIZE` bytes is rejected with
/// status 413 and recorded as an error, with a marker in place of the body.
pub fn request_payload_handler(
    metadata: &RequestMetadata,
    payload_size: usize,
    config: &ServerConfig,
) -> (res: Result<(), Rejection>)
    ensures
        res is Ok <==> payload_size <= MAX_INCOMING_PAYLOAD_SIZE,
        res matches Err(rejection) ==> rejects(
            rejection,
            LogLevel::Error,
            metadata@,
            payload_size,
            PAYLOAD_TOO_LARGE_TO_DISPLAY@,
            PipelineErrorView::PayloadTooLarge,
            config.server_addr@,
        ),
{
    if payload_size > MAX_INCOMING_PAYLOAD_SIZE {
        Err(
            reject(
                LogLevel::Error,
                metadata,
                payload_size,
                PAYLOAD_TOO_LARGE_TO_DISPLAY.to_owned(),
                PipelineError::PayloadTooLarge,
                config,
            ),
        )
    } else {
        Ok(())
    }
}

} // verus!
