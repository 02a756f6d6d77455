//! The health-check endpoint: it validates nothing and fails only where the
//! persistence layer does.

use vstd::prelude::*;
use crate::context::{RequestMetadata, ServerConfig};
use crate::logging::{capture_request_log, request_log, HttpRequestLog};
use crate::pipeline::{answers, response_handler, Answer};
use crate::response::{
    error_outcome, success_outcome, HttpOutcome, HttpOutcomeView, PipelineError,
    PipelineErrorView,
};
use crate::status::LogLevel;

verus! {

/// A health probe arrived: record it as information. It has no body, so the
/// record holds neither a size nor a summary. The caller is then to ask the
/// persistence layer whether it is alive.
pub fn health_check_received(metadata: &RequestMetadata) -> (log: HttpRequestLog)
    ensures
        log@ == request_log(log.timestamp, LogLevel::Info, metadata@, None, None),
{
    capture_request_log(LogLevel::Info, metadata, None, None)
}

/// The view of what the liveness check reported.
pub open spec fn probed_view(result: Result<(), String>) -> Result<(), Seq<char>> {
    match result {
        Ok(()) => Ok(()),
        Err(message) => Err(message@),
    }
}

/// The outcome of a health probe: success where the persistence layer is
/// alive, a server failure with its message otherwise.
pub open spec fn probed_outcome(result: Result<(), Seq<char>>) -> HttpOutcomeView {
    match result {
        Ok(()) => success_outcome(),
        Err(message) => error_outcome(PipelineErrorView::PersistenceFailure { message }),
    }
}

/// The persistence layer's liveness was checked: answer the probe.
pub fn health_check_probed(result: Result<(), String>, config: &ServerConfig) -> (answer: Answer)
    ensures
        answers(answer, probed_outcome(probed_view(result)), config.server_addr@),
{
    let outcome = match result {
        Ok(()) => HttpOutcome::success(),
        Err(message) => PipelineError::PersistenceFailure { message }.outcome(),
    };
    response_handler(outcome, config)
}

} // verus!
