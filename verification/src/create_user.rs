//! The registration endpoint, one function per event.
//!
//! A registration runs through three events: the body was received, its text
//! was parsed, the credential was persisted. Each function says what is to be
//! logged and either how to answer or what the caller is to do next. What
//! the next event needs is carried in a value that only the event before can
//! have made, so the events cannot be taken out of order.

use vstd::prelude::*;
use vstd::string::*;
use vstd::utf8::*;
use crate::context::{RequestMetadata, RequestMetadataView, ServerConfig};
use crate::credentials::{
    bcrypt_verifies, credential_from_hash, email_address_is_valid, hash_password,
    is_bcrypt_hash, password_length_ok, validate_request, validation_failure, Field,
    RegistrationRequest, RegistrationRequestView, SanitizedCredential, ValidatedRequest,
};
use crate::logging::{
    capture_request_log, HttpRequestLog, CREDENTIALS_REDACTED, PAYLOAD_TOO_LARGE_TO_DISPLAY,
};
use crate::pipeline::{
    answers, records_request, reject, rejects, request_payload_handler, response_handler, Answer,
    Rejection, MAX_INCOMING_PAYLOAD_SIZE,
};
use crate::response::{
    error_outcome, success_outcome, HttpOutcome, HttpOutcomeView, PipelineError,
    PipelineErrorView,
};
use crate::status::LogLevel;
use crate::text::{decode_body, sanitized_email, utf8_error_message};

verus! {

/// A registration whose body was decoded and is being parsed.
#[derive(Debug)]
pub struct AwaitingParse {
    metadata: RequestMetadata,
    payload_size: usize,
}

impl AwaitingParse {
    #[verifier::type_invariant]
    spec fn within_limit(self) -> bool {
        self.payload_size <= MAX_INCOMING_PAYLOAD_SIZE
    }

    /// The metadata of the request.
    pub closed spec fn metadata(self) -> RequestMetadataView {
        self.metadata@
    }

    /// The length of the request's body in bytes.
    pub closed spec fn spec_payload_size(&self) -> usize {
        self.payload_size
    }

    /// The length of the request's body in bytes, which is within the limit.
    #[verifier::when_used_as_spec(spec_payload_size)]
    pub fn payload_size(&self) -> (size: usize)
        ensures
            size == self.spec_payload_size(),
            size <= MAX_INCOMING_PAYLOAD_SIZE,
    {
        proof {
            use_type_invariant(self);
        }
        self.payload_size
    }
}

/// A registration whose credential was handed to the persistence layer.
#[derive(Debug)]
pub struct AwaitingPersistence {
    accepted: (),
}

/// What follows the arrival of a registration body.
///
/// The decoded text holds the password in the clear, so there is no `Debug`.
pub enum Received {
    /// The body was turned away.
    Rejected(Rejection),
    /// The body is text; the caller is to parse it as a registration request.
    Decoded { text: String, pending: AwaitingParse },
}

impl Received {
    /// The body was rejected as `rejects` describes.
    pub open spec fn rejected_with(
        self,
        log_level: LogLevel,
        metadata: RequestMetadataView,
        payload_size: usize,
        body: Seq<char>,
        error: PipelineErrorView,
        server_addr: Seq<char>,
    ) -> bool {
        self matches Received::Rejected(rejection) && rejects(
            rejection,
            log_level,
            metadata,
            payload_size,
            body,
            error,
            server_addr,
        )
    }

    /// The body was decoded to the given text, and the request is remembered
    /// with its metadata and size.
    pub open spec fn decoded_as(
        self,
        expected: Seq<char>,
        metadata: RequestMetadataView,
        payload_size: usize,
    ) -> bool {
        self matches Received::Decoded { text, pending } && text@ == expected
            && pending.metadata() == metadata && pending.spec_payload_size() == payload_size
    }
}

/// A registration body arrived: guard its size, then decode it.
///
/// The size is examined first, so an oversized body is answered with 413
/// whatever it holds. A body within the limit that is not UTF-8 is answered
/// with 400 and recorded as an error with the decoder's message. Nothing is
/// recorded for a body that decodes: its record is written once it has parsed.
pub fn create_user_received(
    metadata: RequestMetadata,
    raw_body: &[u8],
    config: &ServerConfig,
) -> (received: Received)
    ensures
        raw_body@.len() > MAX_INCOMING_PAYLOAD_SIZE ==> received.rejected_with(
            LogLevel::Error,
            metadata@,
            raw_body@.len() as usize,
            PAYLOAD_TOO_LARGE_TO_DISPLAY@,
            PipelineErrorView::PayloadTooLarge,
            config.server_addr@,
        ),
        raw_body@.len() <= MAX_INCOMING_PAYLOAD_SIZE && !valid_utf8(raw_body@)
            ==> received.rejected_with(
            LogLevel::Error,
            metadata@,
            raw_body@.len() as usize,
            utf8_error_message(raw_body@),
            PipelineErrorView::DecodeFailure,
            config.server_addr@,
        ),
        raw_body@.len() <= MAX_INCOMING_PAYLOAD_SIZE && valid_utf8(raw_body@)
            ==> received.decoded_as(decode_utf8(raw_body@), metadata@, raw_body@.len() as usize),
{
    let payload_size = raw_body.len();
    match request_payload_handler(&metadata, payload_size, config) {
        Err(rejection) => Received::Rejected(rejection),
        Ok(()) => match decode_body(raw_body) {
            Ok(text) => Received::Decoded { text, pending: AwaitingParse { metadata, payload_size } },
            Err(message) => Received::Rejected(
                reject(
                    LogLevel::Error,
                    &metadata,
                    payload_size,
                    message,
                    PipelineError::DecodeFailure,
                    config,
                ),
            ),
        },
    }
}

/// The view of what a parser reported.
pub open spec fn parsed_view(parsed: Result<RegistrationRequest, String>) -> Result<
    RegistrationRequestView,
    Seq<char>,
> {
    match parsed {
        Ok(request) => Ok(request@),
        Err(message) => Err(message@),
    }
}

/// How a request is recorded once parsing was attempted: a parse failure as
/// an error with the parser's message, a request that parsed as information
/// with a marker in place of the credentials.
pub open spec fn parsed_record(parsed: Result<RegistrationRequestView, Seq<char>>) -> (
    LogLevel,
    Seq<char>,
) {
    match parsed {
        Ok(_) => (LogLevel::Info, CREDENTIALS_REDACTED@),
        Err(message) => (LogLevel::Error, message),
    }
}

/// The error, if any, that stops a request once parsing was attempted.
pub open spec fn parsed_error(parsed: Result<RegistrationRequestView, Seq<char>>) -> Option<
    PipelineErrorView,
> {
    match parsed {
        Err(_) => Some(PipelineErrorView::ParseFailure),
        Ok(request) => match validation_failure(request) {
            Some(field) => Some(PipelineErrorView::ValidationFailure { field }),
            None => None,
        },
    }
}

/// What follows the validation of a parsed request.
pub enum Validated {
    /// The request was turned away.
    Rejected(Rejection),
    /// The request is valid; its password is to be hashed.
    Valid { request_log: HttpRequestLog, request: ValidatedRequest },
}

impl Validated {
    /// The request was rejected as `rejects` describes.
    pub open spec fn rejected_with(
        self,
        log_level: LogLevel,
        metadata: RequestMetadataView,
        payload_size: usize,
        body: Seq<char>,
        error: PipelineErrorView,
        server_addr: Seq<char>,
    ) -> bool {
        self matches Validated::Rejected(rejection) && rejects(
            rejection,
            log_level,
            metadata,
            payload_size,
            body,
            error,
            server_addr,
        )
    }

    /// The given request was found valid and recorded, redacted, as
    /// information.
    pub open spec fn valid_with(
        self,
        metadata: RequestMetadataView,
        payload_size: usize,
        expected: RegistrationRequestView,
    ) -> bool {
        self matches Validated::Valid { request_log, request } && records_request(
            request_log,
            LogLevel::Info,
            metadata,
            payload_size,
            CREDENTIALS_REDACTED@,
        ) && request.request() == expected
    }
}

/// Records the request and validates it.
///
/// The record is `parsed_record`. A request that did not parse, or that
/// fails validation, is answered with the outcome of `parsed_error`.
pub fn validate_parsed(
    pending: AwaitingParse,
    parsed: Result<RegistrationRequest, String>,
    config: &ServerConfig,
) -> (validated: Validated)
    ensures
        match parsed_error(parsed_view(parsed)) {
            Some(error) => validated.rejected_with(
                parsed_record(parsed_view(parsed)).0,
                pending.metadata(),
                pending.spec_payload_size(),
                parsed_record(parsed_view(parsed)).1,
                error,
                config.server_addr@,
            ),
            None => parsed matches Ok(request) && validated.valid_with(
                pending.metadata(),
                pending.spec_payload_size(),
                request@,
            ),
        },
{
    match parsed {
        Err(message) => Validated::Rejected(
            reject(
                LogLevel::Error,
                &pending.metadata,
                pending.payload_size,
                message,
                PipelineError::ParseFailure,
                config,
            ),
        ),
        Ok(request) => {
            let request_log = capture_request_log(
                LogLevel::Info,
                &pending.metadata,
                Some(pending.payload_size),
                Some(CREDENTIALS_REDACTED.to_owned()),
            );
            match validate_request(request) {
                Err(field) => {
                    let answer = response_handler(
                        PipelineError::ValidationFailure { field }.outcome(),
                        config,
                    );
                    Validated::Rejected(Rejection { request_log, answer })
                },
                Ok(request) => Validated::Valid { request_log, request },
            }
        },
    }
}

/// What follows the parsing of a registration body.
#[derive(Debug)]
pub enum Parsed {
    /// The request was turned away.
    Rejected(Rejection),
    /// The request is valid; the caller is to persist the credential.
    Accepted {
        request_log: HttpRequestLog,
        credential: SanitizedCredential,
        pending: AwaitingPersistence,
    },
    /// The request is valid but its password could not be hashed. There is no
    /// answer to give: the request is to be abandoned. Only `create_user_hashed`
    /// yields this, where it is given a failed hash.
    HashFailed { request_log: HttpRequestLog },
}

impl Parsed {
    /// The request was rejected as `rejects` describes.
    pub open spec fn rejected_with(
        self,
        log_level: LogLevel,
        metadata: RequestMetadataView,
        payload_size: usize,
        body: Seq<char>,
        error: PipelineErrorView,
        server_addr: Seq<char>,
    ) -> bool {
        self matches Parsed::Rejected(rejection) && rejects(
            rejection,
            log_level,
            metadata,
            payload_size,
            body,
            error,
            server_addr,
        )
    }

    /// The request was recorded, redacted, as information, and its credential
    /// holds the sanitized form of the given email and a bcrypt hash that
    /// verifies against the given password.
    pub open spec fn accepted_with(
        self,
        metadata: RequestMetadataView,
        payload_size: usize,
        request: RegistrationRequestView,
    ) -> bool {
        self matches Parsed::Accepted { request_log, credential, .. } && records_request(
            request_log,
            LogLevel::Info,
            metadata,
            payload_size,
            CREDENTIALS_REDACTED@,
        ) && credential@.email == sanitized_email(request.email) && is_bcrypt_hash(
            credential@.password_hash,
        ) && bcrypt_verifies(request.password, credential@.password_hash)
    }

    /// The request was accepted with the given record, and its credential
    /// holds the sanitized form of the given email and the given hash.
    pub open spec fn accepted_as(
        self,
        expected_log: HttpRequestLog,
        email: Seq<char>,
        hash: Seq<char>,
    ) -> bool {
        self matches Parsed::Accepted { request_log, credential, .. } && request_log
            == expected_log && credential@.email == sanitized_email(email)
            && credential@.password_hash == hash
    }

}

/// The password of a valid request was hashed: accept the request with its
/// credential, or abandon it where hashing failed.
pub fn create_user_hashed(
    request_log: HttpRequestLog,
    request: &ValidatedRequest,
    hashed: Result<String, pwhash::error::Error>,
) -> (step: Parsed)
    ensures
        match hashed {
            Ok(hash) => step.accepted_as(request_log, request.request().email, hash@),
            Err(_) => step == (Parsed::HashFailed { request_log }),
        },
{
    match credential_from_hash(request, hashed) {
        Some(credential) => Parsed::Accepted {
            request_log,
            credential,
            pending: AwaitingPersistence { accepted: () },
        },
        None => Parsed::HashFailed { request_log },
    }
}

/// The body was parsed: record the request, validate it, and prepare the
/// credential.
///
/// A request that did not parse is answered with 400 and recorded as an
/// error with the parser's message. One that parsed is recorded as
/// information, with a marker where its body would stand, and then validated:
/// the email first, then the password. A failed validation is answered with
/// 400 and not recorded again. A valid request is accepted, with a
/// credential that holds its sanitized email and the hash of its password.
pub fn create_user_parsed(
    pending: AwaitingParse,
    parsed: Result<RegistrationRequest, String>,
    config: &ServerConfig,
) -> (step: Parsed)
    ensures
        match parsed {
            Err(message) => step.rejected_with(
                LogLevel::Error,
                pending.metadata(),
                pending.spec_payload_size(),
                message@,
                PipelineErrorView::ParseFailure,
                config.server_addr@,
            ),
            Ok(request) => if !email_address_is_valid(request@.email) {
                step.rejected_with(
                    LogLevel::Info,
                    pending.metadata(),
                    pending.spec_payload_size(),
                    CREDENTIALS_REDACTED@,
                    PipelineErrorView::ValidationFailure { field: Field::Email },
                    config.server_addr@,
                )
            } else if !password_length_ok(request@.password) {
                step.rejected_with(
                    LogLevel::Info,
                    pending.metadata(),
                    pending.spec_payload_size(),
                    CREDENTIALS_REDACTED@,
                    PipelineErrorView::ValidationFailure { field: Field::Password },
                    config.server_addr@,
                )
            } else {
                step.accepted_with(pending.metadata(), pending.spec_payload_size(), request@)
            },
        },
{
    match validate_parsed(pending, parsed, config) {
        Validated::Rejected(rejection) => Parsed::Rejected(rejection),
        Validated::Valid { request_log, request } => {
            let hashed = hash_password(&request);
            create_user_hashed(request_log, &request, hashed)
        },
    }
}

/// The ways the persistence layer can refuse a credential.
#[derive(Clone, Copy, Debug, PartialEq, Eq, Structural)]
pub enum PersistenceErrorKind {
    /// A user with this email exists already.
    AlreadyExists,
    /// Anything else.
    Other,
}

/// A failure reported by the persistence layer, with its message.
#[derive(Clone, Debug, PartialEq, Eq)]
pub struct PersistenceError {
    pub kind: PersistenceErrorKind,
    pub message: String,
}

pub struct PersistenceErrorView {
    pub kind: PersistenceErrorKind,
    pub message: Seq<char>,
}

impl View for PersistenceError {
    type V = PersistenceErrorView;

    open spec fn view(&self) -> PersistenceErrorView {
        PersistenceErrorView { kind: self.kind, message: self.message@ }
    }
}

/// The view of what the persistence layer reported.
pub open spec fn persisted_view(result: Result<(), PersistenceError>) -> Result<
    (),
    PersistenceErrorView,
> {
    match result {
        Ok(()) => Ok(()),
        Err(error) => Err(error@),
    }
}

/// The outcome of a registration once the persistence layer has spoken:
/// success, a conflict on the email where the user exists already, a server
/// failure otherwise. The layer's message is passed on verbatim.
pub open spec fn persisted_outcome(result: Result<(), PersistenceErrorView>) -> HttpOutcomeView {
    match result {
        Ok(()) => success_outcome(),
        Err(error) => match error.kind {
            PersistenceErrorKind::AlreadyExists => error_outcome(
                PipelineErrorView::PersistenceConflict { message: error.message },
            ),
            PersistenceErrorKind::Other => error_outcome(
                PipelineErrorView::PersistenceFailure { message: error.message },
            ),
        },
    }
}

/// The persistence layer has spoken: answer the client. The layer is not
/// asked again, whatever it reported.
pub fn create_user_persisted(
    pending: AwaitingPersistence,
    result: Result<(), PersistenceError>,
    config: &ServerConfig,
) -> (answer: Answer)
    ensures
        answers(answer, persisted_outcome(persisted_view(result)), config.server_addr@),
{
    let outcome = match result {
        Ok(()) => HttpOutcome::success(),
        Err(error) => match error.kind {
            PersistenceErrorKind::AlreadyExists => PipelineError::PersistenceConflict {
                message: error.message,
            }.outcome(),
            PersistenceErrorKind::Other => PipelineError::PersistenceFailure {
                message: error.message,
            }.outcome(),
        },
    };
    response_handler(outcome, config)
}

} // verus!
