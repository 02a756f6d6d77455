//! Outcomes of the pipeline and the responses they are rendered to.

use vstd::prelude::*;
use vstd::pervasive::unreached;
use vstd::string::*;
use crate::credentials::Field;
use crate::status::Status;
use crate::text::text_view;

verus! {

/// The JSON string literal that `serde_json::to_string` writes for a text:
/// the text between double quotes, with the escapes JSON requires.
pub uninterp spec fn json_string_literal(text: Seq<char>) -> Seq<char>;

/// Makes `serde_json::Error` known as a type whose values are opaque.
#[verifier::external_type_specification]
#[verifier::external_body]
pub struct ExJsonError(serde_json::Error);

/// Calls `serde_json::to_string` on a string slice.
///
/// Trusted: the call succeeds and returns `json_string_literal` of the text.
/// It succeeds because a string slice serialises without a fallible step: the
/// serializer writes into a byte vector in memory, and no map key or
/// user-written `Serialize` impl is involved.
#[verifier::external_body]
fn to_json_string(text: &str) -> (res: Result<String, serde_json::Error>)
    ensures
        res is Ok,
        res matches Ok(json) ==> json@ == json_string_literal(text@),
{
    serde_json::to_string(text)
}

/// The body of a response that reports a failure.
#[derive(Clone, Debug, PartialEq, Eq)]
pub struct ResponseBody {
    pub error_field: String,
    pub error_message: String,
}

pub struct ResponseBodyView {
    pub error_field: Seq<char>,
    pub error_message: Seq<char>,
}

impl View for ResponseBody {
    type V = ResponseBodyView;

    open spec fn view(&self) -> ResponseBodyView {
        ResponseBodyView { error_field: self.error_field@, error_message: self.error_message@ }
    }
}

/// The view of an optional body.
pub open spec fn body_view(body: Option<ResponseBody>) -> Option<ResponseBodyView> {
    match body {
        Some(body) => Some(body@),
        None => None,
    }
}

/// What the pipeline decided: a status and, for a failure, its explanation.
#[derive(Clone, Debug, PartialEq, Eq)]
pub struct HttpOutcome {
    pub status: Status,
    pub body: Option<ResponseBody>,
}

pub struct HttpOutcomeView {
    pub status: Status,
    pub body: Option<ResponseBodyView>,
}

impl View for HttpOutcome {
    type V = HttpOutcomeView;

    open spec fn view(&self) -> HttpOutcomeView {
        HttpOutcomeView { status: self.status, body: body_view(self.body) }
    }
}

impl HttpOutcomeView {
    /// A success carries no body; every other outcome carries one.
    pub open spec fn well_formed(self) -> bool {
        self.status == Status::Success <==> self.body is None
    }
}

/// The success outcome: status 200 and no body.
pub open spec fn success_outcome() -> HttpOutcomeView {
    HttpOutcomeView { status: Status::Success, body: None }
}

/// A failure outcome that blames `error_field` with `error_message`.
pub open spec fn failure_outcome(
    status: Status,
    error_field: Seq<char>,
    error_message: Seq<char>,
) -> HttpOutcomeView {
    HttpOutcomeView { status, body: Some(ResponseBodyView { error_field, error_message }) }
}

/// The name under which a request field is reported.
pub open spec fn field_name(field: Field) -> Seq<char> {
    match field {
        Field::Email => "email"@,
        Field::Password => "password"@,
    }
}

/// The explanation given for a field that failed validation.
pub open spec fn field_message(field: Field) -> Seq<char> {
    match field {
        Field::Email => "Please enter a valid email address."@,
        Field::Password => "Please enter a valid password of at least 8 characters."@,
    }
}

/// What can go wrong while a request is processed.
#[derive(Clone, Debug, PartialEq, Eq)]
pub enum PipelineError {
    /// The body is longer than the service accepts.
    PayloadTooLarge,
    /// The body is not UTF-8 text.
    DecodeFailure,
    /// The text is not a registration request.
    ParseFailure,
    /// A field of the request is not acceptable.
    ValidationFailure { field: Field },
    /// The persistence layer already knows the email.
    PersistenceConflict { message: String },
    /// The persistence layer failed in any other way.
    PersistenceFailure { message: String },
}

pub enum PipelineErrorView {
    PayloadTooLarge,
    DecodeFailure,
    ParseFailure,
    ValidationFailure { field: Field },
    PersistenceConflict { message: Seq<char> },
    PersistenceFailure { message: Seq<char> },
}

impl View for PipelineError {
    type V = PipelineErrorView;

    open spec fn view(&self) -> PipelineErrorView {
        match self {
            PipelineError::PayloadTooLarge => PipelineErrorView::PayloadTooLarge,
            PipelineError::DecodeFailure => PipelineErrorView::DecodeFailure,
            PipelineError::ParseFailure => PipelineErrorView::ParseFailure,
            PipelineError::ValidationFailure { field } => PipelineErrorView::ValidationFailure {
                field: *field,
            },
            PipelineError::PersistenceConflict { message } => PipelineErrorView::PersistenceConflict {
                message: message@,
            },
            PipelineError::PersistenceFailure { message } => PipelineErrorView::PersistenceFailure {
                message: message@,
            },
        }
    }
}

/// The outcome each error is answered with.
pub open spec fn error_outcome(error: PipelineErrorView) -> HttpOutcomeView {
    match error {
        PipelineErrorView::PayloadTooLarge => failure_outcome(
            Status::PayloadTooLarge,
            "server"@,
            "Request payload exceeds 131072 bytes"@,
        ),
        PipelineErrorView::DecodeFailure => failure_outcome(
            Status::BadRequest,
            "server"@,
            "Error occurred deserializing the requested payload"@,
        ),
        PipelineErrorView::ParseFailure => failure_outcome(
            Status::BadRequest,
            "server"@,
            "Error occurred parsing the request into JSON"@,
        ),
        PipelineErrorView::ValidationFailure { field } => failure_outcome(
            Status::BadRequest,
            field_name(field),
            field_message(field),
        ),
        PipelineErrorView::PersistenceConflict { message } => failure_outcome(
            Status::Conflict,
            "email"@,
            message,
        ),
        PipelineErrorView::PersistenceFailure { message } => failure_outcome(
            Status::InternalServerError,
            "server"@,
            message,
        ),
    }
}

impl HttpOutcome {
    /// The outcome of a request that was served.
    pub fn success() -> (outcome: HttpOutcome)
        ensures
            outcome@ == success_outcome(),
    {
        HttpOutcome { status: Status::Success, body: None }
    }

    /// A failure outcome with the given status, field and message.
    pub fn failure(status: Status, error_field: &str, error_message: String) -> (outcome:
        HttpOutcome)
        ensures
            outcome@ == failure_outcome(status, error_field@, error_message@),
            outcome@.well_formed() <==> status != Status::Success,
    {
        HttpOutcome {
            status,
            body: Some(ResponseBody { error_field: error_field.to_owned(), error_message }),
        }
    }
}

impl PipelineError {
    /// Maps the error to the outcome the client is answered with.
    pub fn outcome(self) -> (outcome: HttpOutcome)
        ensures
            outcome@ == error_outcome(self@),
            outcome@.status != Status::Success,
            outcome@.well_formed(),
    {
        match self {
            PipelineError::PayloadTooLarge => HttpOutcome::failure(
                Status::PayloadTooLarge,
                "server",
                "Request payload exceeds 131072 bytes".to_owned(),
            ),
            PipelineError::DecodeFailure => HttpOutcome::failure(
                Status::BadRequest,
                "server",
                "Error occurred deserializing the requested payload".to_owned(),
            ),
            PipelineError::ParseFailure => HttpOutcome::failure(
                Status::BadRequest,
                "server",
                "Error occurred parsing the request into JSON".to_owned(),
            ),
            PipelineError::ValidationFailure { field: Field::Email } => HttpOutcome::failure(
                Status::BadRequest,
                "email",
                "Please enter a valid email address.".to_owned(),
            ),
            PipelineError::ValidationFailure { field: Field::Password } => HttpOutcome::failure(
                Status::BadRequest,
                "password",
                "Please enter a valid password of at least 8 characters.".to_owned(),
            ),
            PipelineError::PersistenceConflict { message } => HttpOutcome::failure(
                Status::Conflict,
                "email",
                message,
            ),
            PipelineError::PersistenceFailure { message } => HttpOutcome::failure(
                Status::InternalServerError,
                "server",
                message,
            ),
        }
    }
}

/// The JSON object a failure body is sent as.
pub open spec fn response_body_json(body: ResponseBodyView) -> Seq<char> {
    "{\"error_field\":"@ + json_string_literal(body.error_field) + ",\"error_message\":"@
        + json_string_literal(body.error_message) + "}"@
}

/// Writes a text as a JSON string literal.
pub fn json_string(text: &str) -> (json: String)
    ensures
        json@ == json_string_literal(text@),
{
    match to_json_string(text) {
        Ok(json) => json,
        Err(_) => unreached(),
    }
}

impl ResponseBody {
    /// Serialises the body as a JSON object with its two members in order.
    pub fn to_json(&self) -> (json: String)
        ensures
            json@ == response_body_json(self@),
    {
        let mut json = "{\"error_field\":".to_owned();
        let field = json_string(self.error_field.as_str());
        json.append(field.as_str());
        json.append(",\"error_message\":");
        let message = json_string(self.error_message.as_str());
        json.append(message.as_str());
        json.append("}");
        json
    }
}

/// A response ready to be sent: the numeric status and the serialised body.
#[derive(Clone, Debug, PartialEq, Eq)]
pub struct HttpResponse {
    pub status_code: u16,
    pub body: Option<String>,
}

pub struct HttpResponseView {
    pub status_code: u16,
    pub body: Option<Seq<char>>,
}

impl View for HttpResponse {
    type V = HttpResponseView;

    open spec fn view(&self) -> HttpResponseView {
        HttpResponseView { status_code: self.status_code, body: text_view(self.body) }
    }
}

/// The response an outcome is rendered to.
pub open spec fn rendered(outcome: HttpOutcomeView) -> HttpResponseView {
    HttpResponseView {
        status_code: outcome.status.spec_code(),
        body: match outcome.body {
            Some(body) => Some(response_body_json(body)),
            None => None,
        },
    }
}

impl HttpOutcome {
    /// Renders the outcome: the status becomes its code, the body its JSON.
    pub fn render(&self) -> (response: HttpResponse)
        ensures
            response@ == rendered(self@),
    {
        let body = match &self.body {
            Some(body) => Some(body.to_json()),
            None => None,
        };
        HttpResponse { status_code: self.status.code(), body }
    }
}

} // verus!
