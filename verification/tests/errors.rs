use elevenlabs_ttd::client::{body_to_read, conclude, BodyRead};
use elevenlabs_ttd::ElevenLabsTTDError;

fn status_failure(status: u16) -> reqwest::Error {
    let response = http::Response::builder().status(status).body("gone wrong").unwrap();
    reqwest::Response::from(response).error_for_status().unwrap_err()
}

fn builder_failure() -> reqwest::Error {
    reqwest::Client::new().get("not an address").build().unwrap_err()
}

fn json_failure() -> serde_json::Error {
    serde_json::from_str::<serde_json::Value>("{").unwrap_err()
}

#[test]
fn status_401_is_an_authentication_error_whatever_the_body() {
    for body in ["", "server exploded", "{\"detail\":\"no\"}"] {
        match ElevenLabsTTDError::from_status(401, body.to_string()) {
            ElevenLabsTTDError::AuthenticationError(message) => {
                assert_eq!(message, "Invalid API key")
            }
            other => panic!("unexpected {:?}", other),
        }
    }
}

#[test]
fn status_429_is_a_rate_limit_error_with_its_fixed_message() {
    match ElevenLabsTTDError::from_status(429, "slow down".to_string()) {
        ElevenLabsTTDError::RateLimitError { retry_after, message } => {
            assert_eq!(retry_after, None);
            assert_eq!(message, "Too many requests");
        }
        other => panic!("unexpected {:?}", other),
    }
}

#[test]
fn status_402_is_a_quota_error_with_its_fixed_message() {
    match ElevenLabsTTDError::from_status(402, "pay".to_string()) {
        ElevenLabsTTDError::QuotaExceededError(message) => {
            assert_eq!(message, "Insufficient credits")
        }
        other => panic!("unexpected {:?}", other),
    }
}

#[test]
fn status_500_keeps_status_and_body() {
    match ElevenLabsTTDError::from_status(500, "server exploded".to_string()) {
        ElevenLabsTTDError::ApiError { status, message } => {
            assert_eq!(status, 500);
            assert_eq!(message, "server exploded");
        }
        other => panic!("unexpected {:?}", other),
    }
}

#[test]
fn every_other_status_is_an_api_error() {
    for status in [0u16, 100, 200, 204, 301, 400, 403, 404, 428, 430, 503, 999, u16::MAX] {
        match ElevenLabsTTDError::from_status(status, "text".to_string()) {
            ElevenLabsTTDError::ApiError { status: kept, message } => {
                assert_eq!(kept, status);
                assert_eq!(message, "text");
            }
            other => panic!("unexpected {:?}", other),
        }
    }
}

#[test]
fn texts_of_the_kinds_without_a_cause() {
    let api = ElevenLabsTTDError::ApiError { status: 500, message: "server exploded".to_string() };
    assert_eq!(api.to_string(), "API error (500): server exploded");
    let auth = ElevenLabsTTDError::AuthenticationError("Invalid API key".to_string());
    assert_eq!(auth.to_string(), "Authentication failed: Invalid API key");
    let limited = ElevenLabsTTDError::RateLimitError {
        retry_after: None,
        message: "Too many requests".to_string(),
    };
    assert_eq!(limited.to_string(), "Rate limit exceeded: Too many requests");
    let later = ElevenLabsTTDError::RateLimitError {
        retry_after: Some(30),
        message: "Too many requests".to_string(),
    };
    assert_eq!(later.to_string(), "Rate limit exceeded (retry in 30s): Too many requests");
    let quota = ElevenLabsTTDError::QuotaExceededError("Insufficient credits".to_string());
    assert_eq!(quota.to_string(), "Quota exceeded: Insufficient credits");
    let invalid = ElevenLabsTTDError::ValidationError("Invalid voice ID".to_string());
    assert_eq!(invalid.to_string(), "Validation error: Invalid voice ID");
}

#[test]
fn text_of_an_api_error_with_small_and_large_status() {
    let zero = ElevenLabsTTDError::ApiError { status: 0, message: String::new() };
    assert_eq!(zero.to_string(), "API error (0): ");
    let top = ElevenLabsTTDError::ApiError { status: u16::MAX, message: "x".to_string() };
    assert_eq!(top.to_string(), "API error (65535): x");
    let later = ElevenLabsTTDError::RateLimitError {
        retry_after: Some(u64::MAX),
        message: "m".to_string(),
    };
    assert_eq!(later.to_string(), "Rate limit exceeded (retry in 18446744073709551615s): m");
}

#[test]
fn render_takes_the_cause_for_the_kinds_that_wrap_one() {
    let request = ElevenLabsTTDError::RequestError(builder_failure());
    assert_eq!(request.render("timed out"), "Request failed: timed out");
    let parse = ElevenLabsTTDError::ParseError(json_failure());
    assert_eq!(parse.render("bad"), "Failed to parse response: bad");
    let invalid = ElevenLabsTTDError::ValidationError("v".to_string());
    assert_eq!(invalid.render("ignored"), "Validation error: v");
}

#[test]
fn text_of_a_wrapped_transport_failure() {
    let cause = builder_failure();
    let expected = format!("Request failed: {}", cause);
    let text = ElevenLabsTTDError::RequestError(cause).to_string();
    assert_eq!(text, expected);
    assert!(text.len() > "Request failed: ".len());
}

#[test]
fn text_of_a_wrapped_parse_failure() {
    let cause = json_failure();
    let expected = format!("Failed to parse response: {}", cause);
    let text = ElevenLabsTTDError::ParseError(cause).to_string();
    assert_eq!(text, expected);
    assert!(text.contains("EOF while parsing"));
}

#[test]
fn every_text_contains_the_words_of_its_kind() {
    let cases = vec![
        (ElevenLabsTTDError::RequestError(builder_failure()), "Request failed"),
        (ElevenLabsTTDError::ApiError { status: 418, message: "m".to_string() }, "API error"),
        (ElevenLabsTTDError::ParseError(json_failure()), "Failed to parse response"),
        (ElevenLabsTTDError::AuthenticationError("m".to_string()), "Authentication failed"),
        (
            ElevenLabsTTDError::RateLimitError { retry_after: None, message: "m".to_string() },
            "Rate limit exceeded",
        ),
        (
            ElevenLabsTTDError::RateLimitError { retry_after: Some(1), message: "m".to_string() },
            "Rate limit exceeded",
        ),
        (ElevenLabsTTDError::QuotaExceededError("m".to_string()), "Quota exceeded"),
        (ElevenLabsTTDError::ValidationError("m".to_string()), "Validation error"),
    ];
    for (error, words) in cases {
        let text = error.to_string();
        assert!(text.starts_with(words), "{} in {}", words, text);
    }
}

#[test]
fn transport_failure_without_a_status_is_wrapped() {
    let cause = builder_failure();
    assert!(cause.status().is_none());
    let shown = cause.to_string();
    match ElevenLabsTTDError::from(cause) {
        ElevenLabsTTDError::RequestError(kept) => assert_eq!(kept.to_string(), shown),
        other => panic!("unexpected {:?}", other),
    }
}

#[test]
fn transport_failure_with_status_401_is_an_authentication_error() {
    match ElevenLabsTTDError::from(status_failure(401)) {
        ElevenLabsTTDError::AuthenticationError(message) => assert_eq!(message, "Invalid API key"),
        other => panic!("unexpected {:?}", other),
    }
}

#[test]
fn transport_failure_with_status_429_is_a_rate_limit_error() {
    match ElevenLabsTTDError::from_request_error(status_failure(429)) {
        ElevenLabsTTDError::RateLimitError { retry_after, message } => {
            assert_eq!(retry_after, None);
            assert_eq!(message, "Too many requests");
        }
        other => panic!("unexpected {:?}", other),
    }
}

#[test]
fn transport_failure_with_status_402_is_a_quota_error() {
    match ElevenLabsTTDError::from(status_failure(402)) {
        ElevenLabsTTDError::QuotaExceededError(message) => {
            assert_eq!(message, "Insufficient credits")
        }
        other => panic!("unexpected {:?}", other),
    }
}

#[test]
fn transport_failure_with_another_status_keeps_status_and_its_own_text() {
    let cause = status_failure(503);
    let shown = cause.to_string();
    match ElevenLabsTTDError::from(cause) {
        ElevenLabsTTDError::ApiError { status, message } => {
            assert_eq!(status, 503);
            assert_eq!(message, shown);
            assert!(message.contains("503"));
        }
        other => panic!("unexpected {:?}", other),
    }
}

#[test]
fn parse_failure_is_wrapped() {
    let cause = json_failure();
    let shown = cause.to_string();
    match ElevenLabsTTDError::from(cause) {
        ElevenLabsTTDError::ParseError(kept) => assert_eq!(kept.to_string(), shown),
        other => panic!("unexpected {:?}", other),
    }
}

#[test]
fn audio_is_read_on_success_and_text_otherwise() {
    for status in [200u16, 201, 204, 299] {
        assert_eq!(body_to_read(status), BodyRead::Audio);
    }
    for status in [0u16, 100, 199, 300, 301, 400, 401, 402, 429, 500, 999, u16::MAX] {
        assert_eq!(body_to_read(status), BodyRead::FailureText);
    }
}

#[test]
fn a_success_hands_back_the_bytes_as_they_are() {
    let audio = vec![0u8, 255, 73, 68, 51, 0, 0];
    match conclude(200, audio.clone(), "unused".to_string()) {
        Ok(bytes) => assert_eq!(bytes, audio),
        Err(error) => panic!("unexpected {:?}", error),
    }
    match conclude(204, Vec::new(), String::new()) {
        Ok(bytes) => assert!(bytes.is_empty()),
        Err(error) => panic!("unexpected {:?}", error),
    }
}

#[test]
fn a_failure_is_classified_by_its_status() {
    match conclude(500, vec![1, 2, 3], "server exploded".to_string()) {
        Err(ElevenLabsTTDError::ApiError { status, message }) => {
            assert_eq!(status, 500);
            assert_eq!(message, "server exploded");
        }
        other => panic!("unexpected {:?}", other),
    }
    assert!(matches!(
        conclude(401, Vec::new(), "body".to_string()),
        Err(ElevenLabsTTDError::AuthenticationError(_))
    ));
    assert!(matches!(
        conclude(429, Vec::new(), String::new()),
        Err(ElevenLabsTTDError::RateLimitError { retry_after: None, .. })
    ));
    assert!(matches!(
        conclude(402, Vec::new(), String::new()),
        Err(ElevenLabsTTDError::QuotaExceededError(_))
    ));
    match conclude(404, Vec::new(), String::new()) {
        Err(ElevenLabsTTDError::ApiError { status, message }) => {
            assert_eq!(status, 404);
            assert_eq!(message, "");
        }
        other => panic!("unexpected {:?}", other),
    }
}

#[test]
fn a_failure_given_without_a_status_is_wrapped() {
    let cause = builder_failure();
    let shown = cause.to_string();
    match ElevenLabsTTDError::from_request_parts(cause, None, "unused".to_string()) {
        ElevenLabsTTDError::RequestError(kept) => assert_eq!(kept.to_string(), shown),
        other => panic!("unexpected {:?}", other),
    }
}

#[test]
fn a_failure_given_with_a_status_is_classified_by_it() {
    assert!(matches!(
        ElevenLabsTTDError::from_request_parts(builder_failure(), Some(401), "t".to_string()),
        ElevenLabsTTDError::AuthenticationError(_)
    ));
    assert!(matches!(
        ElevenLabsTTDError::from_request_parts(builder_failure(), Some(429), "t".to_string()),
        ElevenLabsTTDError::RateLimitError { retry_after: None, .. }
    ));
    assert!(matches!(
        ElevenLabsTTDError::from_request_parts(builder_failure(), Some(402), "t".to_string()),
        ElevenLabsTTDError::QuotaExceededError(_)
    ));
    match ElevenLabsTTDError::from_request_parts(builder_failure(), Some(500), "t".to_string()) {
        ElevenLabsTTDError::ApiError { status, message } => {
            assert_eq!(status, 500);
            assert_eq!(message, "t");
        }
        other => panic!("unexpected {:?}", other),
    }
}

#[test]
fn a_failure_of_every_kind_without_a_status_is_wrapped() {
    let causes = vec![
        builder_failure(),
        reqwest::Client::new().get("http://[::1").build().unwrap_err(),
    ];
    for cause in causes {
        assert!(cause.status().is_none());
        assert!(matches!(
            ElevenLabsTTDError::from_request_error(cause),
            ElevenLabsTTDError::RequestError(_)
        ));
    }
}
