use grok_code::error::{GrokError, ResultExt};

#[test]
fn test_error_display() {
    // Test IO error
    let grok_err = GrokError::Io("file not found".to_string());
    assert!(grok_err.message().contains("IO error"));

    // Test custom errors
    let api_err = GrokError::Api("test api error".to_string());
    assert_eq!(api_err.message(), "API error: test api error");

    let config_err = GrokError::Config("invalid config".to_string());
    assert_eq!(config_err.message(), "Configuration error: invalid config");

    let not_found_err = GrokError::FileNotFound("/test/path".to_string());
    assert_eq!(not_found_err.message(), "File not found: /test/path");
}

#[test]
fn every_kind_of_error_has_its_heading() {
    let s = || "x".to_string();
    assert_eq!(GrokError::Io(s()).message(), "IO error: x");
    assert_eq!(GrokError::ApiRequestError(s()).message(), "API request error: x");
    assert_eq!(GrokError::ApiError(s()).message(), "x");
    assert_eq!(
        GrokError::RateLimitExceeded { message: s(), retry_after: None }.message(),
        "Rate limit exceeded: x"
    );
    assert_eq!(GrokError::NoSummaryGenerated.message(), "No summary generated");
    assert_eq!(GrokError::Json(s()).message(), "JSON error: x");
    assert_eq!(GrokError::JsonError(s()).message(), "JSON error: x");
    assert_eq!(GrokError::Http(s()).message(), "HTTP error: x");
    assert_eq!(GrokError::Git(s()).message(), "Git error: x");
    assert_eq!(GrokError::Regex(s()).message(), "Regex error: x");
    assert_eq!(GrokError::ToolExecution(s()).message(), "Tool execution error: x");
    assert_eq!(GrokError::InvalidInput(s()).message(), "Invalid input: x");
    assert_eq!(GrokError::PermissionDenied(s()).message(), "Permission denied: x");
    assert_eq!(GrokError::ProcessExecution(s()).message(), "Process execution error: x");
    assert_eq!(GrokError::Timeout(s()).message(), "Operation timed out: x");
}

#[test]
fn constructors_build_their_variants() {
    assert!(matches!(GrokError::config("c"), GrokError::Config(m) if m == "c"));
    assert!(matches!(GrokError::api("a"), GrokError::Api(m) if m == "a"));
    assert!(matches!(GrokError::tool_execution("t"), GrokError::ToolExecution(m) if m == "t"));
    assert!(matches!(
        GrokError::rate_limited("slow", Some(60)),
        GrokError::RateLimitExceeded { message, retry_after: Some(60) } if message == "slow"
    ));
}

#[test]
fn context_wraps_once() {
    let wrapped = GrokError::api("boom").context("while asking");
    assert_eq!(wrapped.message(), "while asking");
    match &wrapped {
        GrokError::WithContext { source, .. } => assert_eq!(source.message(), "API error: boom"),
        _ => panic!("context must wrap"),
    }
    let again = wrapped.context("outer");
    assert_eq!(again.message(), "while asking");

    let ok: Result<u8, GrokError> = Ok(7);
    assert_eq!(ok.context("unused").unwrap(), 7);
    let err: Result<u8, GrokError> = Err(GrokError::config("bad"));
    assert_eq!(err.context("loading").unwrap_err().message(), "loading");
}

#[test]
fn retry_policy_of_errors() {
    let limited = GrokError::rate_limited("slow", Some(30));
    assert!(limited.is_retryable());
    assert_eq!(limited.retry_after(), Some(30));
    assert_eq!(GrokError::rate_limited("slow", None).retry_after(), None);
    let timeout = GrokError::Timeout("t".to_string());
    assert!(timeout.is_retryable());
    assert_eq!(timeout.retry_after(), Some(5));
    let http = GrokError::Http("h".to_string());
    assert!(http.is_retryable());
    assert_eq!(http.retry_after(), Some(2));
    let config = GrokError::config("c");
    assert!(!config.is_retryable());
    assert_eq!(config.retry_after(), None);
    assert!(!GrokError::api("a").context("ctx").is_retryable());
}
