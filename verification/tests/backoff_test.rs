use anthropic_sdk::client::{
    calculate_retry_delay, retry_delay_with_jitter, MAX_RETRY_DELAY_MS,
};
use anthropic_sdk::{
    accept_success_body, classify_error_body, is_success_status, AnthropicClient, AnthropicError,
    ApiErrorDetail, ApiErrorResponse, MessageResponse, ResponseContentBlock, RetryStep,
    StopReason, Usage,
};

fn tiny_response() -> MessageResponse {
    MessageResponse {
        id: "msg_1".to_string(),
        response_type: "message".to_string(),
        role: "assistant".to_string(),
        content: vec![ResponseContentBlock::Text {
            text: "hi".to_string(),
            citations: None,
        }],
        model: "m".to_string(),
        stop_reason: Some(StopReason::EndTurn),
        stop_sequence: None,
        usage: Usage {
            input_tokens: 1,
            output_tokens: 1,
            cache_creation_input_tokens: None,
            cache_read_input_tokens: None,
        },
    }
}

#[test]
fn test_backoff_delay_without_jitter() {
    // initial * 2^attempt, clipped at the ceiling
    assert_eq!(retry_delay_with_jitter(0, 0), 1000);
    assert_eq!(retry_delay_with_jitter(1, 0), 2000);
    assert_eq!(retry_delay_with_jitter(2, 0), 4000);
    assert_eq!(retry_delay_with_jitter(5, 0), 32000);
    assert_eq!(retry_delay_with_jitter(6, 0), 60000);
    assert_eq!(retry_delay_with_jitter(31, 0), 60000);
}

#[test]
fn test_backoff_delay_with_jitter_and_monotone() {
    assert_eq!(retry_delay_with_jitter(3, 999), 8999);
    assert_eq!(retry_delay_with_jitter(9, 123), 60000);
    let mut prev = 0u64;
    for attempt in 0..12u32 {
        let d = retry_delay_with_jitter(attempt, 500);
        assert!(d >= prev, "delay must not shrink as attempts grow");
        assert!(d <= MAX_RETRY_DELAY_MS);
        prev = d;
    }
    for _ in 0..32 {
        let d = calculate_retry_delay(4);
        assert!((16000..16000 + 1000).contains(&d));
    }
}

#[test]
fn test_retryable_classification() {
    let overloaded = AnthropicError::ApiError {
        error_type: "overloaded_error".to_string(),
        message: "busy".to_string(),
    };
    let api = AnthropicError::ApiError {
        error_type: "api_error".to_string(),
        message: "oops".to_string(),
    };
    let invalid = AnthropicError::ApiError {
        error_type: "invalid_request_error".to_string(),
        message: "bad".to_string(),
    };
    assert!(AnthropicClient::is_retryable_error(&overloaded));
    assert!(AnthropicClient::is_retryable_error(&api));
    assert!(!AnthropicClient::is_retryable_error(&invalid));
    assert!(AnthropicClient::is_retryable_error(&AnthropicError::RateLimit));
    assert!(AnthropicClient::is_retryable_error(&AnthropicError::HttpClient(
        "connection refused".to_string()
    )));
    assert!(AnthropicClient::is_retryable_error(&AnthropicError::HttpClient(
        "request timeout".to_string()
    )));
    assert!(!AnthropicClient::is_retryable_error(&AnthropicError::HttpClient(
        "tls handshake broke".to_string()
    )));
    assert!(!AnthropicClient::is_retryable_error(&AnthropicError::Serialization(
        "no".to_string()
    )));
}

#[test]
fn test_retry_steps_exhaustion_returns_same_error() {
    // With a budget of 2 retries, a persistently retryable error backs off
    // twice (attempts 0 and 1) and surfaces unchanged on attempt 2: three
    // attempts in all.
    let client = AnthropicClient::new("k").with_max_retries(2);
    let mut attempts = 0u32;
    let final_outcome;
    loop {
        let outcome: Result<MessageResponse, AnthropicError> = Err(AnthropicError::RateLimit);
        attempts += 1;
        match client.next_retry_step(attempts - 1, outcome) {
            RetryStep::Done(res) => {
                final_outcome = res;
                break;
            }
            RetryStep::Backoff(d) => {
                assert!(d <= MAX_RETRY_DELAY_MS);
            }
        }
    }
    assert_eq!(attempts, 3);
    assert_eq!(final_outcome, Err(AnthropicError::RateLimit));
}

#[test]
fn test_nonretryable_returns_on_first_attempt() {
    let client = AnthropicClient::new("k").with_max_retries(5);
    let terminal = AnthropicError::ApiError {
        error_type: "invalid_request_error".to_string(),
        message: "bad".to_string(),
    };
    match client.next_retry_step(0, Err(terminal.clone())) {
        RetryStep::Done(res) => assert_eq!(res, Err(terminal)),
        RetryStep::Backoff(_) => panic!("a terminal error must not be retried"),
    }
}

#[test]
fn test_success_is_final() {
    let client = AnthropicClient::new("k");
    match client.next_retry_step(0, Ok(tiny_response())) {
        RetryStep::Done(res) => assert_eq!(res, Ok(tiny_response())),
        RetryStep::Backoff(_) => panic!("a success must not be retried"),
    }
}

#[test]
fn test_success_status_bounds() {
    assert!(!is_success_status(199));
    assert!(is_success_status(200));
    assert!(is_success_status(299));
    assert!(!is_success_status(300));
    assert!(!is_success_status(404));
}

#[test]
fn test_accept_success_body() {
    assert_eq!(accept_success_body(Some(tiny_response()), ""), Ok(tiny_response()));
    assert_eq!(
        accept_success_body(None, "eof at line 1"),
        Err(AnthropicError::Deserialization(
            "Failed to parse response: eof at line 1".to_string()
        ))
    );
}

#[test]
fn test_classify_error_body() {
    let structured = ApiErrorResponse {
        error: ApiErrorDetail {
            error_type: "overloaded_error".to_string(),
            message: "slow down".to_string(),
        },
        error_type: "error".to_string(),
    };
    assert_eq!(
        classify_error_body(529, Some(structured), "ignored"),
        AnthropicError::ApiError {
            error_type: "overloaded_error".to_string(),
            message: "slow down".to_string(),
        }
    );
    assert_eq!(
        classify_error_body(404, None, "not found"),
        AnthropicError::InvalidResponse("API returned status 404: not found".to_string())
    );
}

#[test]
fn test_decimal_rendering() {
    assert_eq!(anthropic_sdk::text::u64_to_decimal_string(0), "0");
    assert_eq!(anthropic_sdk::text::u64_to_decimal_string(7), "7");
    assert_eq!(anthropic_sdk::text::u64_to_decimal_string(10), "10");
    assert_eq!(anthropic_sdk::text::u64_to_decimal_string(60000), "60000");
    assert_eq!(anthropic_sdk::text::u64_to_decimal_string(18446744073709551615), "18446744073709551615");
}

#[test]
fn test_build_headers_api_key_mode() {
    let client = AnthropicClient::new("sk-key").with_header("X-Org", "o-1");
    let headers = client.build_headers();
    assert_eq!(
        headers,
        vec![
            ("x-api-key".to_string(), "sk-key".to_string()),
            ("anthropic-version".to_string(), "2023-06-01".to_string()),
            ("content-type".to_string(), "application/json".to_string()),
            ("X-Org".to_string(), "o-1".to_string()),
        ]
    );
}

#[test]
fn test_build_headers_bearer_mode() {
    let client = AnthropicClient::new("tok").with_oauth().with_api_version("2024-01-01");
    let headers = client.build_headers();
    assert_eq!(
        headers,
        vec![
            ("authorization".to_string(), "Bearer tok".to_string()),
            ("anthropic-version".to_string(), "2024-01-01".to_string()),
            ("content-type".to_string(), "application/json".to_string()),
        ]
    );
}

#[test]
fn test_build_messages_url() {
    let client = AnthropicClient::new("k");
    let url = client.build_messages_url().expect("default base URL must parse");
    assert_eq!(url.as_str(), "https://api.anthropic.com/v1/messages");

    let bad = AnthropicClient::new("k").with_base_url("not a url");
    assert_eq!(
        bad.build_messages_url(),
        Err(AnthropicError::InvalidResponse(
            "Invalid URL: not a url/v1/messages".to_string()
        ))
    );
}

#[test]
fn test_error_messages() {
    assert_eq!(
        AnthropicError::HttpClient("refused".to_string()).message(),
        "HTTP client error: refused"
    );
    assert_eq!(AnthropicError::MissingApiKey.message(), "API key not provided");
    assert_eq!(
        AnthropicError::InvalidResponse("odd".to_string()).message(),
        "Invalid API response: odd"
    );
    assert_eq!(
        AnthropicError::ApiError {
            error_type: "overloaded_error".to_string(),
            message: "busy".to_string(),
        }
        .message(),
        "API error: overloaded_error: busy"
    );
    assert_eq!(AnthropicError::RateLimit.message(), "Rate limit exceeded");
    assert_eq!(AnthropicError::Authentication.message(), "Authentication failed");
    assert_eq!(
        AnthropicError::Serialization("nope".to_string()).message(),
        "Serialization error: nope"
    );
    assert_eq!(
        AnthropicError::Deserialization("bad json".to_string()).message(),
        "Deserialization error: bad json"
    );
}
