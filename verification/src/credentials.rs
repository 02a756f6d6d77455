//! Registration requests: validation, and the credential that is stored.

use vstd::prelude::*;
use vstd::utf8::*;
use crate::text::{sanitize_email, sanitized_email};

verus! {

/// Shortest password accepted, in bytes.
pub const MIN_PASSWORD_LENGTH: usize = 8;

/// Longest password accepted, in bytes.
pub const MAX_PASSWORD_LENGTH: usize = 255;

/// Whether `email_address::EmailAddress::is_valid` accepts the address.
pub uninterp spec fn email_address_is_valid(address: Seq<char>) -> bool;

/// Calls `email_address::EmailAddress::is_valid`.
///
/// Trusted: the answer is `email_address_is_valid` of the address; the parser
/// behind it reads nothing but its argument.
#[verifier::external_body]
fn email_is_valid(address: &str) -> (valid: bool)
    ensures
        valid == email_address_is_valid(address@),
{
    email_address::EmailAddress::is_valid(address)
}

/// Makes `pwhash::error::Error` known as a type whose values are opaque.
#[verifier::external_type_specification]
#[verifier::external_body]
pub struct ExHashError(pwhash::error::Error);

/// The shape of what `pwhash::bcrypt::hash` produces: the marker of the
/// default variant and cost, then 22 characters of salt and 31 of checksum.
pub open spec fn is_bcrypt_hash(hash: Seq<char>) -> bool {
    &&& hash.len() == 60
    &&& hash.subrange(0, 7) == seq!['$', '2', 'b', '$', '1', '0', '$']
}

/// Calls `pwhash::bcrypt::hash`, which salts from the system's random source
/// and does not return where that source fails.
///
/// Trusted: a call that returns, returns a hash: the function has no path
/// that ends in an error. The hash has the shape `is_bcrypt_hash`, and
/// `pwhash::bcrypt::verify` accepts it for the password, since it hashes
/// again with the salt it reads from the hash. Which hash it is, is open.
#[verifier::external_body]
fn bcrypt_hash(password: &str) -> (res: Result<String, pwhash::error::Error>)
    ensures
        res is Ok,
        res matches Ok(hash) ==> is_bcrypt_hash(hash@),
        res matches Ok(hash) ==> bcrypt_verifies(password@, hash@),
{
    pwhash::bcrypt::hash(password)
}

/// The two fields a registration request can fail validation on.
#[derive(Clone, Copy, Debug, PartialEq, Eq, Structural)]
pub enum Field {
    Email,
    Password,
}

/// A registration request as the client sent it.
///
/// It holds the password in the clear and therefore has no `Debug`.
#[derive(Clone, PartialEq, Eq)]
pub struct RegistrationRequest {
    pub email: String,
    pub password: String,
}

pub struct RegistrationRequestView {
    pub email: Seq<char>,
    pub password: Seq<char>,
}

impl View for RegistrationRequest {
    type V = RegistrationRequestView;

    open spec fn view(&self) -> RegistrationRequestView {
        RegistrationRequestView { email: self.email@, password: self.password@ }
    }
}

/// A password is acceptable when its UTF-8 encoding has 8 to 255 bytes.
pub open spec fn password_length_ok(password: Seq<char>) -> bool {
    MIN_PASSWORD_LENGTH <= encode_utf8(password).len() <= MAX_PASSWORD_LENGTH
}

/// The field on which a request fails validation, if any. The email is
/// examined first, so a request with both fields bad fails on the email.
pub open spec fn validation_failure(request: RegistrationRequestView) -> Option<Field> {
    if !email_address_is_valid(request.email) {
        Some(Field::Email)
    } else if !password_length_ok(request.password) {
        Some(Field::Password)
    } else {
        None
    }
}

/// Whether the address is syntactically a valid email address.
pub fn validate_email(email: &str) -> (valid: bool)
    ensures
        valid == email_address_is_valid(email@),
{
    email_is_valid(email)
}

/// Whether the password's length is within bounds.
pub fn validate_password(password: &str) -> (valid: bool)
    ensures
        valid == password_length_ok(password@),
{
    let length = password.as_bytes().len();
    MIN_PASSWORD_LENGTH <= length && length <= MAX_PASSWORD_LENGTH
}

/// A request that has passed validation. Only `validate_request` makes one.
pub struct ValidatedRequest {
    request: RegistrationRequest,
}

impl ValidatedRequest {
    #[verifier::type_invariant]
    spec fn well_formed(self) -> bool {
        validation_failure(self.request@) is None
    }

    /// The request that was validated.
    pub closed spec fn request(self) -> RegistrationRequestView {
        self.request@
    }

    /// The address as the client sent it, known to be valid.
    pub fn email(&self) -> (email: &str)
        ensures
            email@ == self.request().email,
            email_address_is_valid(email@),
    {
        proof {
            use_type_invariant(self);
        }
        self.request.email.as_str()
    }

    /// The password as the client sent it, known to be of acceptable length.
    pub fn password(&self) -> (password: &str)
        ensures
            password@ == self.request().password,
            password_length_ok(password@),
    {
        proof {
            use_type_invariant(self);
        }
        self.request.password.as_str()
    }
}

/// Validates a request: the email first, then the password.
pub fn validate_request(request: RegistrationRequest) -> (res: Result<ValidatedRequest, Field>)
    ensures
        match res {
            Ok(valid) => validation_failure(request@) is None && valid.request() == request@,
            Err(field) => validation_failure(request@) == Some(field),
        },
{
    if !validate_email(request.email.as_str()) {
        Err(Field::Email)
    } else if !validate_password(request.password.as_str()) {
        Err(Field::Password)
    } else {
        Ok(ValidatedRequest { request })
    }
}

/// An email is in stored form when it is the sanitized form of the email of
/// some request that passes validation.
pub open spec fn is_sanitized_email(email: Seq<char>) -> bool {
    exists|request: RegistrationRequestView| #[trigger]
        validation_failure(request) is None && email == sanitized_email(request.email)
}

/// What is handed to the persistence layer: the normalised email and the
/// password's hash. One exists only for a request that passed validation.
#[derive(Debug)]
pub struct SanitizedCredential {
    email: String,
    password_hash: String,
}

pub struct SanitizedCredentialView {
    pub email: Seq<char>,
    pub password_hash: Seq<char>,
}

impl View for SanitizedCredential {
    type V = SanitizedCredentialView;

    closed spec fn view(&self) -> SanitizedCredentialView {
        SanitizedCredentialView { email: self.email@, password_hash: self.password_hash@ }
    }
}

impl SanitizedCredential {
    #[verifier::type_invariant]
    spec fn well_formed(self) -> bool {
        is_sanitized_email(self.email@)
    }

    /// The normalised email address.
    pub fn email(&self) -> (email: &str)
        ensures
            email@ == self@.email,
            is_sanitized_email(email@),
    {
        proof {
            use_type_invariant(self);
        }
        self.email.as_str()
    }

    /// The hash of the password.
    pub fn password_hash(&self) -> (hash: &str)
        ensures
            hash@ == self@.password_hash,
    {
        self.password_hash.as_str()
    }

    /// Gives up the credential as the pair of email and password hash, for
    /// the persistence layer to own.
    pub fn into_parts(self) -> (parts: (String, String))
        ensures
            parts.0@ == self@.email,
            parts.1@ == self@.password_hash,
            is_sanitized_email(parts.0@),
    {
        proof {
            use_type_invariant(&self);
        }
        (self.email, self.password_hash)
    }
}

/// Builds the credential of a validated request from the outcome of hashing
/// its password. There is none where hashing failed.
pub fn credential_from_hash(
    request: &ValidatedRequest,
    hashed: Result<String, pwhash::error::Error>,
) -> (res: Option<SanitizedCredential>)
    ensures
        res is Some <==> hashed is Ok,
        res matches Some(credential) ==> {
            &&& credential@.email == sanitized_email(request.request().email)
            &&& hashed matches Ok(hash) && credential@.password_hash == hash@
        },
{
    proof {
        use_type_invariant(request);
    }
    match hashed {
        Ok(password_hash) => {
            let email = sanitize_email(request.request.email.as_str());
            Some(SanitizedCredential { email, password_hash })
        },
        Err(_) => None,
    }
}

/// Hashes the password of a validated request with a fresh salt.
///
/// The hash verifies against that password. Each call draws its own salt,
/// so the hash differs from call to call.
pub fn hash_password(request: &ValidatedRequest) -> (res: Result<String, pwhash::error::Error>)
    ensures
        res is Ok,
        res matches Ok(hash) ==> is_bcrypt_hash(hash@),
        res matches Ok(hash) ==> bcrypt_verifies(request.request().password, hash@),
{
    bcrypt_hash(request.request.password.as_str())
}

/// Whether `pwhash::bcrypt::verify` accepts the hash for the password: it
/// hashes the password again under the variant, cost and salt that the hash
/// names, and compares the two.
pub uninterp spec fn bcrypt_verifies(password: Seq<char>, hash: Seq<char>) -> bool;

} // verus!
