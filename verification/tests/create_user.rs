use dustweb::context::{RequestMetadata, ServerConfig};
use dustweb::credentials::{
    credential_from_hash, hash_password, validate_email, validate_password,
    validate_request, Field, RegistrationRequest, ValidatedRequest,
};
use dustweb::logging::{CREDENTIALS_REDACTED, PAYLOAD_TOO_LARGE_TO_DISPLAY, UNRESOLVED_ADDRESS};
use dustweb::create_user::{
    create_user_hashed, create_user_parsed, create_user_persisted, create_user_received,
    validate_parsed, AwaitingParse, AwaitingPersistence, Parsed, PersistenceError,
    PersistenceErrorKind, Received, Validated,
};
use dustweb::pipeline::{request_payload_handler, Rejection, MAX_INCOMING_PAYLOAD_SIZE};
use dustweb::status::LogLevel;
use dustweb::text::{decode_body, sanitize_email};

fn metadata() -> RequestMetadata {
    RequestMetadata {
        remote_addr: Some("203.0.113.7".to_string()),
        path: "/api/v1/create_user".to_string(),
        method: "POST".to_string(),
    }
}

fn config() -> ServerConfig {
    ServerConfig { server_addr: "127.0.0.1".to_string() }
}

fn request(email: &str, password: &str) -> RegistrationRequest {
    RegistrationRequest { email: email.to_string(), password: password.to_string() }
}

fn error_body(field: &str, message: &str) -> Option<String> {
    Some(format!(
        "{{\"error_field\":\"{}\",\"error_message\":\"{}\"}}",
        field, message
    ))
}

/// Runs a body of `size` bytes through the first stage.
fn pending(size: usize) -> AwaitingParse {
    pending_for(metadata(), size)
}

fn pending_for(metadata: RequestMetadata, size: usize) -> AwaitingParse {
    let body = vec![b' '; size];
    match create_user_received(metadata, &body, &config()) {
        Received::Decoded { pending, .. } => pending,
        _ => panic!("expected decoded text"),
    }
}

/// Runs a valid request up to the point where its credential is persisted.
fn accepted() -> AwaitingPersistence {
    let validated = validate_parsed(pending(44), Ok(request("a@b.com", "longenough1")), &config());
    let (request_log, valid) = match validated {
        Validated::Valid { request_log, request } => (request_log, request),
        _ => panic!("expected a valid request"),
    };
    match create_user_hashed(request_log, &valid, Ok("$2b$10$salt.and.checksum".to_string())) {
        Parsed::Accepted { pending, .. } => pending,
        other => panic!("expected an accepted request, got {:?}", other),
    }
}

fn valid_request(email: &str, password: &str) -> ValidatedRequest {
    match validate_request(request(email, password)) {
        Ok(valid) => valid,
        Err(field) => panic!("expected a valid request, but {:?} is not", field),
    }
}

fn expect_rejection(step: Parsed) -> Rejection {
    match step {
        Parsed::Rejected(rejection) => rejection,
        other => panic!("expected a rejection, got {:?}", other),
    }
}

fn check_request_log(rejection: &Rejection, level: LogLevel, size: usize, body: &str) {
    let log = &rejection.request_log;
    assert_eq!(log.log_level, level);
    assert_eq!(log.originating_ip_addr, "203.0.113.7");
    assert_eq!(log.api, "/api/v1/create_user");
    assert_eq!(log.restful_method, "POST");
    assert_eq!(log.payload_size_in_bytes, Some(size));
    assert_eq!(log.body_as_utf8_str, Some(body.to_string()));
}

fn check_answer(rejection: &Rejection, status: u16, field: &str, message: &str) {
    let answer = &rejection.answer;
    assert_eq!(answer.response.status_code, status);
    assert_eq!(answer.response.body, error_body(field, message));
    assert_eq!(answer.response_log.log_level, LogLevel::Error);
    assert_eq!(answer.response_log.originating_ip_addr, "127.0.0.1");
    assert_eq!(answer.response_log.response_status_code, status);
    assert_eq!(answer.response_log.body_as_utf8_str, answer.response.body);
}

#[test]
fn payload_limit_is_128_kib() {
    assert_eq!(MAX_INCOMING_PAYLOAD_SIZE, 131_072);
}

#[test]
fn oversized_body_is_payload_too_large() {
    let body = vec![b'a'; 131_073];
    match create_user_received(metadata(), &body, &config()) {
        Received::Rejected(rejection) => {
            check_request_log(&rejection, LogLevel::Error, 131_073, PAYLOAD_TOO_LARGE_TO_DISPLAY);
            check_answer(&rejection, 413, "server", "Request payload exceeds 131072 bytes");
        }
        _ => panic!("expected a rejection"),
    }
}

#[test]
fn oversized_body_is_payload_too_large_whatever_it_holds() {
    let valid_json = {
        let mut text = String::from("{\"email\":\"a@b.com\",\"password\":\"");
        while text.len() < 200_000 {
            text.push('x');
        }
        text.push_str("\"}");
        text.into_bytes()
    };
    let not_utf8 = vec![0xffu8; 131_073];
    for body in [valid_json, not_utf8] {
        match create_user_received(metadata(), &body, &config()) {
            Received::Rejected(rejection) => {
                assert_eq!(rejection.answer.response.status_code, 413);
                assert_eq!(
                    rejection.request_log.body_as_utf8_str,
                    Some(PAYLOAD_TOO_LARGE_TO_DISPLAY.to_string())
                );
            }
            _ => panic!("expected a rejection"),
        }
    }
}

#[test]
fn body_at_the_limit_is_decoded() {
    let body = vec![b'a'; 131_072];
    match create_user_received(metadata(), &body, &config()) {
        Received::Decoded { text, .. } => assert_eq!(text.len(), 131_072),
        _ => panic!("expected decoded text"),
    }
}

#[test]
fn empty_body_is_decoded_to_empty_text() {
    match create_user_received(metadata(), b"", &config()) {
        Received::Decoded { text, .. } => assert_eq!(text, ""),
        _ => panic!("expected decoded text"),
    }
}

#[test]
fn size_guard_alone() {
    assert!(request_payload_handler(&metadata(), 0, &config()).is_ok());
    assert!(request_payload_handler(&metadata(), 131_072, &config()).is_ok());
    let rejection = request_payload_handler(&metadata(), 131_073, &config()).unwrap_err();
    assert_eq!(rejection.answer.response.status_code, 413);
    assert_eq!(rejection.request_log.payload_size_in_bytes, Some(131_073));
}

#[test]
fn non_utf8_body_is_bad_request() {
    let body = [b'{', 0xff, b'}'];
    match create_user_received(metadata(), &body, &config()) {
        Received::Rejected(rejection) => {
            let expected = std::str::from_utf8(&body).unwrap_err().to_string();
            check_request_log(&rejection, LogLevel::Error, 3, &expected);
            check_answer(
                &rejection,
                400,
                "server",
                "Error occurred deserializing the requested payload",
            );
        }
        _ => panic!("expected a rejection"),
    }
}

#[test]
fn truncated_utf8_body_is_bad_request() {
    let body = [0xe2u8, 0x82];
    match create_user_received(metadata(), &body, &config()) {
        Received::Rejected(rejection) => {
            assert_eq!(rejection.answer.response.status_code, 400);
            assert_eq!(rejection.request_log.log_level, LogLevel::Error);
        }
        _ => panic!("expected a rejection"),
    }
}

#[test]
fn utf8_body_is_handed_on_as_text() {
    let body = "{\"email\":\"jos\u{e9}@example.com\",\"password\":\"longenough1\"}";
    match create_user_received(metadata(), body.as_bytes(), &config()) {
        Received::Decoded { text, .. } => assert_eq!(text, body),
        _ => panic!("expected decoded text"),
    }
}

#[test]
fn decode_body_reports_the_decoder_message() {
    assert_eq!(decode_body(b"hello"), Ok("hello".to_string()));
    let bad = [b'a', 0x80];
    let expected = std::str::from_utf8(&bad).unwrap_err().to_string();
    assert_eq!(decode_body(&bad), Err(expected));
}

#[test]
fn parse_failure_is_bad_request() {
    let message = "missing field `email` at line 1 column 26".to_string();
    let step = create_user_parsed(pending(26), Err(message.clone()), &config());
    let rejection = expect_rejection(step);
    check_request_log(&rejection, LogLevel::Error, 26, &message);
    check_answer(&rejection, 400, "server", "Error occurred parsing the request into JSON");
}

#[test]
fn invalid_email_is_bad_request() {
    let step =
        create_user_parsed(pending(40), Ok(request("not-an-email", "longenough1")), &config());
    let rejection = expect_rejection(step);
    check_request_log(&rejection, LogLevel::Info, 40, CREDENTIALS_REDACTED);
    check_answer(&rejection, 400, "email", "Please enter a valid email address.");
}

#[test]
fn invalid_email_is_reported_before_the_password() {
    let step = create_user_parsed(pending(40), Ok(request("not-an-email", "short")), &config());
    let rejection = expect_rejection(step);
    check_answer(&rejection, 400, "email", "Please enter a valid email address.");
}

#[test]
fn short_password_is_bad_request() {
    let step = create_user_parsed(pending(40), Ok(request("a@b.com", "1234567")), &config());
    let rejection = expect_rejection(step);
    check_request_log(&rejection, LogLevel::Info, 40, CREDENTIALS_REDACTED);
    check_answer(
        &rejection,
        400,
        "password",
        "Please enter a valid password of at least 8 characters.",
    );
}

#[test]
fn long_password_is_bad_request() {
    let password = "p".repeat(256);
    let step = create_user_parsed(pending(300), Ok(request("a@b.com", &password)), &config());
    let rejection = expect_rejection(step);
    check_answer(
        &rejection,
        400,
        "password",
        "Please enter a valid password of at least 8 characters.",
    );
}

#[test]
fn password_length_bounds() {
    assert!(!validate_password(""));
    assert!(!validate_password("1234567"));
    assert!(validate_password("12345678"));
    assert!(validate_password(&"p".repeat(255)));
    assert!(!validate_password(&"p".repeat(256)));
}

#[test]
fn password_length_counts_bytes() {
    // Four characters of two bytes each.
    assert!(validate_password("\u{e9}\u{e9}\u{e9}\u{e9}"));
    // Seven characters, seven bytes.
    assert!(!validate_password("abcdefg"));
    // 128 characters of two bytes each are 256 bytes.
    assert!(!validate_password(&"\u{e9}".repeat(128)));
}

#[test]
fn email_validation() {
    assert!(validate_email("a@b.com"));
    assert!(validate_email("User@Example.com"));
    assert!(!validate_email("not-an-email"));
    assert!(!validate_email(""));
    assert!(!validate_email("a@"));
    assert!(!validate_email("@b.com"));
}

#[test]
fn validation_order() {
    assert_eq!(validate_request(request("bad", "short")).err(), Some(Field::Email));
    assert_eq!(validate_request(request("a@b.com", "short")).err(), Some(Field::Password));
    let valid = valid_request("a@b.com", "longenough1");
    assert_eq!(valid.email(), "a@b.com");
    assert_eq!(valid.password(), "longenough1");
}

#[test]
fn sanitization_trims_and_lowercases() {
    assert_eq!(sanitize_email("  User@Example.com "), "user@example.com");
    assert_eq!(sanitize_email("  User@Example.com "), "user@example.com");
}

#[test]
fn sanitization_of_sanitized_email_changes_nothing() {
    let once = sanitize_email("\tMiXeD.Case@Example.ORG\n");
    assert_eq!(once, "mixed.case@example.org");
    assert_eq!(sanitize_email(&once), once);
}

#[test]
fn valid_request_is_accepted_with_sanitized_email_and_hashed_password() {
    let step =
        create_user_parsed(pending(48), Ok(request("User@Example.com", "longenough1")), &config());
    match step {
        Parsed::Accepted { request_log, credential, .. } => {
            assert_eq!(request_log.log_level, LogLevel::Info);
            assert_eq!(request_log.payload_size_in_bytes, Some(48));
            assert_eq!(request_log.body_as_utf8_str, Some(CREDENTIALS_REDACTED.to_string()));
            assert_eq!(credential.email(), "user@example.com");
            assert_ne!(credential.password_hash(), "longenough1");
            assert_eq!(credential.password_hash().len(), 60);
            assert!(credential.password_hash().starts_with("$2b$10$"));
            assert!(pwhash::bcrypt::verify("longenough1", credential.password_hash()));
            assert!(!pwhash::bcrypt::verify("longenough2", credential.password_hash()));
        }
        other => panic!("expected an accepted request, got {:?}", other),
    }
}

#[test]
fn hashing_twice_gives_different_hashes_that_both_verify() {
    let valid = valid_request("a@b.com", "longenough1");
    let first = credential_from_hash(&valid, hash_password(&valid)).unwrap();
    let second = credential_from_hash(&valid, hash_password(&valid)).unwrap();
    assert_ne!(first.password_hash(), second.password_hash());
    assert!(pwhash::bcrypt::verify("longenough1", first.password_hash()));
    assert!(pwhash::bcrypt::verify("longenough1", second.password_hash()));
    assert_eq!(first.email(), second.email());
}

#[test]
fn credential_is_built_from_the_hash_it_is_given() {
    let valid = validate_request(request(" A@B.com ", "longenough1"));
    // Leading white space makes the address invalid.
    assert_eq!(valid.err(), Some(Field::Email));
    let valid = valid_request("A@B.com", "longenough1");
    let credential = credential_from_hash(&valid, Ok("$2b$10$hash".to_string())).unwrap();
    assert_eq!(credential.email(), "a@b.com");
    assert_eq!(credential.password_hash(), "$2b$10$hash");
}

#[test]
fn no_credential_where_hashing_failed() {
    let valid = valid_request("a@b.com", "longenough1");
    let failed = Err(pwhash::error::Error::RandomError("no entropy".to_string()));
    assert!(credential_from_hash(&valid, failed).is_none());
}

#[test]
fn request_whose_password_could_not_be_hashed_is_abandoned() {
    let validated = validate_parsed(pending(48), Ok(request("a@b.com", "longenough1")), &config());
    let (request_log, valid) = match validated {
        Validated::Valid { request_log, request } => (request_log, request),
        _ => panic!("expected a valid request"),
    };
    let failed = Err(pwhash::error::Error::RandomError("no entropy".to_string()));
    match create_user_hashed(request_log.clone(), &valid, failed) {
        Parsed::HashFailed { request_log: kept } => {
            assert_eq!(kept, request_log);
            assert_eq!(kept.log_level, LogLevel::Info);
            assert_eq!(kept.body_as_utf8_str, Some(CREDENTIALS_REDACTED.to_string()));
        }
        other => panic!("expected a hash failure, got {:?}", other),
    }
}

#[test]
fn request_is_accepted_with_the_hash_it_is_given() {
    let validated = validate_parsed(pending(48), Ok(request("A@B.com", "longenough1")), &config());
    let (request_log, valid) = match validated {
        Validated::Valid { request_log, request } => (request_log, request),
        _ => panic!("expected a valid request"),
    };
    let hashed = Ok("$2b$10$salt.and.checksum".to_string());
    match create_user_hashed(request_log.clone(), &valid, hashed) {
        Parsed::Accepted { request_log: kept, credential, .. } => {
            assert_eq!(kept, request_log);
            assert_eq!(credential.email(), "a@b.com");
            assert_eq!(credential.password_hash(), "$2b$10$salt.and.checksum");
            assert_eq!(
                credential.into_parts(),
                ("a@b.com".to_string(), "$2b$10$salt.and.checksum".to_string())
            );
        }
        other => panic!("expected an accepted request, got {:?}", other),
    }
}

#[test]
fn validation_records_the_request_before_it_rejects() {
    match validate_parsed(pending(48), Ok(request("bad", "longenough1")), &config()) {
        Validated::Rejected(rejection) => {
            check_request_log(&rejection, LogLevel::Info, 48, CREDENTIALS_REDACTED);
            check_answer(&rejection, 400, "email", "Please enter a valid email address.");
        }
        _ => panic!("expected a rejection"),
    }
}

#[test]
fn pending_request_remembers_its_size() {
    assert_eq!(pending(0).payload_size(), 0);
    assert_eq!(pending(131_072).payload_size(), 131_072);
}

#[test]
fn every_accepted_password_is_hashed_and_verifies() {
    let shortest = "12345678".to_string();
    let longest = "p".repeat(255);
    let past_the_hashers_cut = format!("{}{}", "a".repeat(72), "tail");
    let multibyte = "\u{e9}\u{2603}\u{1f600}\u{e9}".to_string();
    let with_nul = "pass\u{0}word".to_string();
    for password in [shortest, longest, past_the_hashers_cut, multibyte, with_nul] {
        let valid = valid_request("a@b.com", &password);
        let hash = match hash_password(&valid) {
            Ok(hash) => hash,
            Err(error) => panic!("hashing failed: {}", error),
        };
        assert_eq!(hash.len(), 60);
        assert!(hash.starts_with("$2b$10$"));
        assert!(pwhash::bcrypt::verify(&password, &hash));
    }
}

#[test]
fn valid_request_is_always_accepted() {
    for (email, password) in [("a@b.com", "12345678"), ("X.Y@Example.ORG", "correct horse")] {
        match create_user_parsed(pending(60), Ok(request(email, password)), &config()) {
            Parsed::Accepted { credential, .. } => {
                assert_eq!(credential.email(), email.to_lowercase());
                assert!(pwhash::bcrypt::verify(password, credential.password_hash()));
            }
            other => panic!("expected an accepted request, got {:?}", other),
        }
    }
}

#[test]
fn hashed_password_has_the_bcrypt_shape() {
    let valid = valid_request("a@b.com", "longenough1");
    let hash = hash_password(&valid).unwrap();
    assert_eq!(hash.len(), 60);
    assert!(hash.starts_with("$2b$10$"));
    assert!(pwhash::bcrypt::verify("longenough1", &hash));
}

#[test]
fn end_to_end_success() {
    let body = b"{\"email\":\"a@b.com\",\"password\":\"longenough1\"}";
    let (text, pending) = match create_user_received(metadata(), body, &config()) {
        Received::Decoded { text, pending } => (text, pending),
        _ => panic!("expected decoded text"),
    };
    assert_eq!(text.as_bytes(), body);
    assert_eq!(pending.payload_size(), body.len());
    let parsed = Ok(request("a@b.com", "longenough1"));
    let (request_log, credential, pending) = match create_user_parsed(pending, parsed, &config()) {
        Parsed::Accepted { request_log, credential, pending } => (request_log, credential, pending),
        _ => panic!("expected an accepted request"),
    };
    assert_eq!(credential.email(), "a@b.com");
    assert_eq!(request_log.payload_size_in_bytes, Some(body.len()));
    let answer = create_user_persisted(pending, Ok(()), &config());

    assert_eq!(answer.response.status_code, 200);
    assert_eq!(answer.response.body, None);
    assert_eq!(request_log.log_level, LogLevel::Info);
    assert_eq!(answer.response_log.log_level, LogLevel::Info);
    assert_eq!(answer.response_log.response_status_code, 200);
    assert_eq!(answer.response_log.body_as_utf8_str, None);
    let request_record = format!("{:?}", request_log);
    let response_record = format!("{:?}", answer.response_log);
    assert!(!request_record.contains("longenough1"));
    assert!(!response_record.contains("longenough1"));
}

#[test]
fn end_to_end_conflict() {
    let body = b"{\"email\":\"a@b.com\",\"password\":\"longenough1\"}";
    let pending = match create_user_received(metadata(), body, &config()) {
        Received::Decoded { pending, .. } => pending,
        _ => panic!("expected decoded text"),
    };
    let parsed = Ok(request("a@b.com", "longenough1"));
    let pending = match create_user_parsed(pending, parsed, &config()) {
        Parsed::Accepted { pending, .. } => pending,
        _ => panic!("expected an accepted request"),
    };
    let error = PersistenceError {
        kind: PersistenceErrorKind::AlreadyExists,
        message: "User already exists".to_string(),
    };
    let answer = create_user_persisted(pending, Err(error), &config());
    assert_eq!(answer.response.status_code, 409);
    assert_eq!(answer.response.body, error_body("email", "User already exists"));
    assert_eq!(answer.response_log.log_level, LogLevel::Error);
    assert_eq!(answer.response_log.body_as_utf8_str, answer.response.body);
}

#[test]
fn other_persistence_failure_is_internal_server_error() {
    let error = PersistenceError {
        kind: PersistenceErrorKind::Other,
        message: "connection refused".to_string(),
    };
    let answer = create_user_persisted(accepted(), Err(error), &config());
    assert_eq!(answer.response.status_code, 500);
    assert_eq!(answer.response.body, error_body("server", "connection refused"));
    assert_eq!(answer.response_log.log_level, LogLevel::Error);
    assert_eq!(answer.response_log.originating_ip_addr, "127.0.0.1");
}

#[test]
fn persistence_message_is_escaped_in_the_body() {
    let error = PersistenceError {
        kind: PersistenceErrorKind::AlreadyExists,
        message: "user \"a@b.com\" exists\n\\".to_string(),
    };
    let answer = create_user_persisted(accepted(), Err(error), &config());
    assert_eq!(
        answer.response.body,
        Some(
            "{\"error_field\":\"email\",\"error_message\":\"user \\\"a@b.com\\\" exists\\n\\\\\"}"
                .to_string()
        )
    );
    let value: serde_json::Value =
        serde_json::from_str(answer.response.body.as_deref().unwrap()).unwrap();
    assert_eq!(value.get("error_field").and_then(|v| v.as_str()), Some("email"));
    assert_eq!(
        value.get("error_message").and_then(|v| v.as_str()),
        Some("user \"a@b.com\" exists\n\\")
    );
}

#[test]
fn unresolved_client_address_is_recorded_as_unknown() {
    let unknown = RequestMetadata {
        remote_addr: None,
        path: "/api/v1/create_user".to_string(),
        method: "POST".to_string(),
    };
    let step = create_user_parsed(pending_for(unknown, 10), Err("EOF".to_string()), &config());
    let rejection = expect_rejection(step);
    assert_eq!(rejection.request_log.originating_ip_addr, UNRESOLVED_ADDRESS);
    assert_eq!(UNRESOLVED_ADDRESS, "unknown");
    assert_eq!(rejection.request_log.api, "/api/v1/create_user");
    assert_eq!(rejection.answer.response.status_code, 400);
}
