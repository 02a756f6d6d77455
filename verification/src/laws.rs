//! Properties of the pipeline that relate several of its parts.

use vstd::prelude::*;
use vstd::utf8::*;
use crate::credentials::{
    email_address_is_valid, password_length_ok, validation_failure, Field,
    RegistrationRequestView, MAX_PASSWORD_LENGTH, MIN_PASSWORD_LENGTH,
};
use crate::logging::CREDENTIALS_REDACTED;
use crate::create_user::{
    parsed_error, parsed_record, persisted_outcome, PersistenceErrorKind, PersistenceErrorView,
};
use crate::health_check::probed_outcome;
use crate::response::{
    error_outcome, failure_outcome, rendered, success_outcome, PipelineErrorView,
};
use crate::status::{log_level_for_status, LogLevel, Status};

verus! {

/// Every error is answered with a failure status and a body, and the
/// response is recorded at error severity.
pub proof fn lemma_errors_are_recorded_as_errors(error: PipelineErrorView)
    ensures
        error_outcome(error).status != Status::Success,
        error_outcome(error).well_formed(),
        rendered(error_outcome(error)).body is Some,
        log_level_for_status(rendered(error_outcome(error)).status_code) == LogLevel::Error,
{
}

/// A success is answered with status 200 and no body, and the response is
/// recorded as information.
pub proof fn lemma_success_is_recorded_as_information()
    ensures
        success_outcome().well_formed(),
        rendered(success_outcome()).status_code == 200,
        rendered(success_outcome()).body is None,
        log_level_for_status(rendered(success_outcome()).status_code) == LogLevel::Info,
{
}

/// The severity of a response record depends on the status alone: of the
/// statuses the service uses, only 200 is recorded as information.
pub proof fn lemma_severity_follows_status(status: Status)
    ensures
        log_level_for_status(status.spec_code()) == LogLevel::Info <==> status == Status::Success,
{
}

/// A body that did not parse is a client error blamed on the server field.
pub proof fn lemma_parse_failure_blames_server(message: Seq<char>)
    ensures
        parsed_error(Err(message)) == Some(PipelineErrorView::ParseFailure),
        parsed_record(Err(message)) == (LogLevel::Error, message),
        error_outcome(PipelineErrorView::ParseFailure) == failure_outcome(
            Status::BadRequest,
            "server"@,
            "Error occurred parsing the request into JSON"@,
        ),
{
}

/// A request whose email is not a valid address is a client error blamed on
/// the email, whatever its password.
pub proof fn lemma_invalid_email_blames_email(request: RegistrationRequestView)
    requires
        !email_address_is_valid(request.email),
    ensures
        parsed_error(Ok(request)) == Some(
            PipelineErrorView::ValidationFailure { field: Field::Email },
        ),
        error_outcome(PipelineErrorView::ValidationFailure { field: Field::Email })
            == failure_outcome(
            Status::BadRequest,
            "email"@,
            "Please enter a valid email address."@,
        ),
{
}

/// A request with a valid email whose password is shorter than 8 bytes or
/// longer than 255 is a client error blamed on the password. With a password
/// of 8 to 255 bytes, validation passes.
pub proof fn lemma_password_length_decides(request: RegistrationRequestView)
    requires
        email_address_is_valid(request.email),
    ensures
        encode_utf8(request.password).len() < 8 || encode_utf8(request.password).len() > 255
            ==> parsed_error(Ok(request)) == Some(
            PipelineErrorView::ValidationFailure { field: Field::Password },
        ),
        8 <= encode_utf8(request.password).len() <= 255 ==> parsed_error(Ok(request)) is None,
        error_outcome(PipelineErrorView::ValidationFailure { field: Field::Password })
            == failure_outcome(
            Status::BadRequest,
            "password"@,
            "Please enter a valid password of at least 8 characters."@,
        ),
{
}

/// For a password of ASCII characters the length that counts is the number
/// of characters.
pub proof fn lemma_ascii_password_length(password: Seq<char>)
    requires
        is_ascii_chars(password),
    ensures
        password_length_ok(password) <==> MIN_PASSWORD_LENGTH <= password.len()
            <= MAX_PASSWORD_LENGTH,
{
    is_ascii_chars_encode_utf8(password);
}

/// The password reaches no record and no answer: two requests with the same
/// email whose passwords are both acceptable, or both not, are recorded and
/// answered alike. The record of a request that parsed holds the redaction
/// marker in place of its body.
pub proof fn lemma_password_is_never_recorded(
    first: RegistrationRequestView,
    second: RegistrationRequestView,
)
    requires
        first.email == second.email,
        password_length_ok(first.password) == password_length_ok(second.password),
    ensures
        parsed_record(Ok(first)) == parsed_record(Ok(second)),
        parsed_record(Ok(first)) == (LogLevel::Info, CREDENTIALS_REDACTED@),
        parsed_error(Ok(first)) == parsed_error(Ok(second)),
{
}

/// A request is stopped after parsing exactly when it fails validation.
pub proof fn lemma_rejected_iff_invalid(request: RegistrationRequestView)
    ensures
        parsed_error(Ok(request)) is Some <==> validation_failure(request) is Some,
        parsed_error(Ok(request)) is None <==> email_address_is_valid(request.email)
            && password_length_ok(request.password),
{
}

/// Whatever the persistence layer reports, the answer is well formed: 200
/// without a body on success, 409 blaming the email with the layer's message
/// where the user exists already, 500 blaming the server with the layer's
/// message otherwise.
pub proof fn lemma_persisted_outcomes(result: Result<(), PersistenceErrorView>)
    ensures
        persisted_outcome(result).well_formed(),
        result is Ok ==> persisted_outcome(result) == success_outcome(),
        result matches Err(error) ==> persisted_outcome(result) == (match error.kind {
            PersistenceErrorKind::AlreadyExists => failure_outcome(
                Status::Conflict,
                "email"@,
                error.message,
            ),
            PersistenceErrorKind::Other => failure_outcome(
                Status::InternalServerError,
                "server"@,
                error.message,
            ),
        }),
{
}

/// A health probe is answered with 200 and no body where the persistence
/// layer is alive, and with 500 blaming the server, with the layer's message,
/// where it is not.
pub proof fn lemma_probed_outcomes(result: Result<(), Seq<char>>)
    ensures
        probed_outcome(result).well_formed(),
        result is Ok ==> probed_outcome(result) == success_outcome(),
        result matches Err(message) ==> probed_outcome(result) == failure_outcome(
            Status::InternalServerError,
            "server"@,
            message,
        ),
{
}

} // verus!
