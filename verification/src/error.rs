//! The error type of the assistant and what its retry policy reads from it.

use vstd::prelude::*;
use crate::text::{concat, owned};

verus! {

/// What can go wrong anywhere in the assistant. Errors that come from the
/// file system, the network or a parser are held by their message.
#[derive(Debug)]
pub enum GrokError {
    /// A file operation failed.
    Io(String),
    /// The provider reported a failure.
    Api(String),
    /// A request to the provider could not be made.
    ApiRequestError(String),
    /// The provider answered with a failure; the text is shown as it is.
    ApiError(String),
    /// The provider limits the rate of requests.
    RateLimitExceeded { message: String, retry_after: Option<u64> },
    /// The provider returned no summary.
    NoSummaryGenerated,
    /// JSON could not be parsed.
    Json(String),
    /// JSON could not be written or read.
    JsonError(String),
    /// The HTTP transport failed.
    Http(String),
    /// A git operation failed.
    Git(String),
    /// A regular expression is invalid.
    Regex(String),
    /// The configuration is invalid.
    Config(String),
    /// A tool failed.
    ToolExecution(String),
    /// The input is invalid.
    InvalidInput(String),
    /// A file does not exist.
    FileNotFound(String),
    /// Access was denied.
    PermissionDenied(String),
    /// A process could not be run.
    ProcessExecution(String),
    /// An operation took too long.
    Timeout(String),
    /// Another error, with a note on what was being done.
    WithContext { context: String, source: Box<GrokError> },
}

impl GrokError {
    /// The text that heads the message of each kind of error.
    pub open spec fn prefix(&self) -> Seq<char> {
        match self {
            GrokError::Io(_) => "IO error: "@,
            GrokError::Api(_) => "API error: "@,
            GrokError::ApiRequestError(_) => "API request error: "@,
            GrokError::ApiError(_) => ""@,
            GrokError::RateLimitExceeded { .. } => "Rate limit exceeded: "@,
            GrokError::NoSummaryGenerated => "No summary generated"@,
            GrokError::Json(_) => "JSON error: "@,
            GrokError::JsonError(_) => "JSON error: "@,
            GrokError::Http(_) => "HTTP error: "@,
            GrokError::Git(_) => "Git error: "@,
            GrokError::Regex(_) => "Regex error: "@,
            GrokError::Config(_) => "Configuration error: "@,
            GrokError::ToolExecution(_) => "Tool execution error: "@,
            GrokError::InvalidInput(_) => "Invalid input: "@,
            GrokError::FileNotFound(_) => "File not found: "@,
            GrokError::PermissionDenied(_) => "Permission denied: "@,
            GrokError::ProcessExecution(_) => "Process execution error: "@,
            GrokError::Timeout(_) => "Operation timed out: "@,
            GrokError::WithContext { .. } => ""@,
        }
    }

    /// The detail that an error carries: its message, or its context.
    pub open spec fn detail(&self) -> Seq<char> {
        match self {
            GrokError::Io(m) => m@,
            GrokError::Api(m) => m@,
            GrokError::ApiRequestError(m) => m@,
            GrokError::ApiError(m) => m@,
            GrokError::RateLimitExceeded { message, .. } => message@,
            GrokError::NoSummaryGenerated => ""@,
            GrokError::Json(m) => m@,
            GrokError::JsonError(m) => m@,
            GrokError::Http(m) => m@,
            GrokError::Git(m) => m@,
            GrokError::Regex(m) => m@,
            GrokError::Config(m) => m@,
            GrokError::ToolExecution(m) => m@,
            GrokError::InvalidInput(m) => m@,
            GrokError::FileNotFound(m) => m@,
            GrokError::PermissionDenied(m) => m@,
            GrokError::ProcessExecution(m) => m@,
            GrokError::Timeout(m) => m@,
            GrokError::WithContext { context, .. } => context@,
        }
    }

    /// The message shown for an error: the heading of its kind, then its
    /// detail. An error with context shows the context alone.
    pub open spec fn text(&self) -> Seq<char> {
        self.prefix() + self.detail()
    }

    /// Whether trying again may help: rate limits, timeouts and transport
    /// failures.
    pub open spec fn retryable(&self) -> bool {
        self is RateLimitExceeded || self is Timeout || self is Http
    }

    /// The seconds to wait before trying again, where the error suggests any.
    pub open spec fn retry_delay(&self) -> Option<u64> {
        match self {
            GrokError::RateLimitExceeded { retry_after, .. } => *retry_after,
            GrokError::Timeout(_) => Some(5u64),
            GrokError::Http(_) => Some(2u64),
            _ => None,
        }
    }

    /// A configuration error with the given message.
    pub fn config(msg: &str) -> (e: Self)
        ensures
            e is Config,
            e.detail() == msg@,
    {
        GrokError::Config(owned(msg))
    }

    /// A provider error with the given message.
    pub fn api(msg: &str) -> (e: Self)
        ensures
            e is Api,
            e.detail() == msg@,
    {
        GrokError::Api(owned(msg))
    }

    /// A tool error with the given message.
    pub fn tool_execution(msg: &str) -> (e: Self)
        ensures
            e is ToolExecution,
            e.detail() == msg@,
    {
        GrokError::ToolExecution(owned(msg))
    }

    /// A rate-limit error with the given message and, where known, the
    /// seconds after which to try again.
    pub fn rate_limited(msg: &str, retry_after: Option<u64>) -> (e: Self)
        ensures
            e is RateLimitExceeded,
            e.detail() == msg@,
            e.retry_delay() == retry_after,
    {
        GrokError::RateLimitExceeded { message: owned(msg), retry_after }
    }

    /// Wraps the error in a note on what was being done. An error that has
    /// such a note already is returned as it is.
    pub fn context(self, context: &str) -> (e: Self)
        ensures
            self is WithContext ==> e == self,
            !(self is WithContext) ==> {
                &&& e matches GrokError::WithContext { context: c, source }
                &&& c@ == context@
                &&& *source == self
            },
    {
        match self {
            GrokError::WithContext { context: c, source } => GrokError::WithContext {
                context: c,
                source,
            },
            other => GrokError::WithContext { context: owned(context), source: Box::new(other) },
        }
    }

    /// Whether trying again may help.
    pub fn is_retryable(&self) -> (b: bool)
        ensures
            b == self.retryable(),
    {
        match self {
            GrokError::RateLimitExceeded { .. } => true,
            GrokError::Timeout(_) => true,
            GrokError::Http(_) => true,
            _ => false,
        }
    }

    /// The seconds to wait before trying again: what a rate limit names, 5
    /// after a timeout, 2 after a transport failure, and nothing otherwise.
    pub fn retry_after(&self) -> (delay: Option<u64>)
        ensures
            delay == self.retry_delay(),
    {
        match self {
            GrokError::RateLimitExceeded { retry_after, .. } => *retry_after,
            GrokError::Timeout(_) => Some(5),
            GrokError::Http(_) => Some(2),
            _ => None,
        }
    }

    /// The message shown for the error.
    pub fn message(&self) -> (out: String)
        ensures
            out@ == self.text(),
    {
        match self {
            GrokError::Io(m) => concat("IO error: ", m.as_str()),
            GrokError::Api(m) => concat("API error: ", m.as_str()),
            GrokError::ApiRequestError(m) => concat("API request error: ", m.as_str()),
            GrokError::ApiError(m) => concat("", m.as_str()),
            GrokError::RateLimitExceeded { message, .. } => concat(
                "Rate limit exceeded: ",
                message.as_str(),
            ),
            GrokError::NoSummaryGenerated => concat("No summary generated", ""),
            GrokError::Json(m) => concat("JSON error: ", m.as_str()),
            GrokError::JsonError(m) => concat("JSON error: ", m.as_str()),
            GrokError::Http(m) => concat("HTTP error: ", m.as_str()),
            GrokError::Git(m) => concat("Git error: ", m.as_str()),
            GrokError::Regex(m) => concat("Regex error: ", m.as_str()),
            GrokError::Config(m) => concat("Configuration error: ", m.as_str()),
            GrokError::ToolExecution(m) => concat("Tool execution error: ", m.as_str()),
            GrokError::InvalidInput(m) => concat("Invalid input: ", m.as_str()),
            GrokError::FileNotFound(m) => concat("File not found: ", m.as_str()),
            GrokError::PermissionDenied(m) => concat("Permission denied: ", m.as_str()),
            GrokError::ProcessExecution(m) => concat("Process execution error: ", m.as_str()),
            GrokError::Timeout(m) => concat("Operation timed out: ", m.as_str()),
            GrokError::WithContext { context, .. } => concat("", context.as_str()),
        }
    }
}

/// Adds a note on what was being done to the error of a result.
pub trait ResultExt<T> {
    /// The result unchanged where it is `Ok`, and its error wrapped by
    /// [`GrokError::context`] where it is `Err`.
    fn context(self, context: &str) -> Result<T, GrokError>;
}

impl<T> ResultExt<T> for Result<T, GrokError> {
    fn context(self, context: &str) -> (out: Result<T, GrokError>)
        ensures
            self is Ok ==> out == self,
            self matches Err(e) ==> {
                &&& out matches Err(wrapped)
                &&& e is WithContext ==> wrapped == e
                &&& !(e is WithContext) ==> {
                    &&& wrapped matches GrokError::WithContext { context: c, source }
                    &&& c@ == context@
                    &&& *source == e
                }
            },
    {
        match self {
            Ok(v) => Ok(v),
            Err(e) => Err(e.context(context)),
        }
    }
}

} // verus!
