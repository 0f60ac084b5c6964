//! The error taxonomy of the library, and the shape of the provider's
//! structured error body.

use vstd::prelude::*;
use vstd::string::StringExecFns;

verus! {

/// Every way a request or a conversation step can fail.
#[derive(Debug, PartialEq, Eq)]
pub enum AnthropicError {
    /// The transport failed (network error, timeout); the message is the
    /// transport's own description.
    HttpClient(String),
    /// No credential was supplied.
    MissingApiKey,
    /// The response did not have the expected shape, or a protocol rule was
    /// broken by the caller.
    InvalidResponse(String),
    /// The provider returned a structured error body.
    ApiError { error_type: String, message: String },
    /// The provider reported that the rate limit was exceeded.
    RateLimit,
    /// The credential was rejected.
    Authentication,
    /// The request could not be encoded.
    Serialization(String),
    /// The response body could not be decoded.
    Deserialization(String),
}

impl Clone for AnthropicError {
    fn clone(&self) -> (r: Self)
        ensures
            r == *self,
    {
        match self {
            AnthropicError::HttpClient(m) => AnthropicError::HttpClient(m.clone()),
            AnthropicError::MissingApiKey => AnthropicError::MissingApiKey,
            AnthropicError::InvalidResponse(m) => AnthropicError::InvalidResponse(m.clone()),
            AnthropicError::ApiError { error_type, message } => AnthropicError::ApiError {
                error_type: error_type.clone(),
                message: message.clone(),
            },
            AnthropicError::RateLimit => AnthropicError::RateLimit,
            AnthropicError::Authentication => AnthropicError::Authentication,
            AnthropicError::Serialization(m) => AnthropicError::Serialization(m.clone()),
            AnthropicError::Deserialization(m) => AnthropicError::Deserialization(m.clone()),
        }
    }
}

/// The human-readable rendering of each error.
pub open spec fn spec_error_message(e: AnthropicError) -> Seq<char> {
    match e {
        AnthropicError::HttpClient(m) => "HTTP client error: "@ + m@,
        AnthropicError::MissingApiKey => "API key not provided"@,
        AnthropicError::InvalidResponse(m) => "Invalid API response: "@ + m@,
        AnthropicError::ApiError { error_type, message } => "API error: "@ + error_type@ + ": "@
            + message@,
        AnthropicError::RateLimit => "Rate limit exceeded"@,
        AnthropicError::Authentication => "Authentication failed"@,
        AnthropicError::Serialization(m) => "Serialization error: "@ + m@,
        AnthropicError::Deserialization(m) => "Deserialization error: "@ + m@,
    }
}

impl AnthropicError {
    /// Render the error for a human reader.
    pub fn message(&self) -> (r: String)
        ensures
            r@ == spec_error_message(*self),
    {
        match self {
            AnthropicError::HttpClient(m) => {
                let mut r = "HTTP client error: ".to_owned();
                r.append(m.as_str());
                r
            },
            AnthropicError::MissingApiKey => "API key not provided".to_owned(),
            AnthropicError::InvalidResponse(m) => {
                let mut r = "Invalid API response: ".to_owned();
                r.append(m.as_str());
                r
            },
            AnthropicError::ApiError { error_type, message } => {
                let mut r = "API error: ".to_owned();
                r.append(error_type.as_str());
                r.append(": ");
                r.append(message.as_str());
                r
            },
            AnthropicError::RateLimit => "Rate limit exceeded".to_owned(),
            AnthropicError::Authentication => "Authentication failed".to_owned(),
            AnthropicError::Serialization(m) => {
                let mut r = "Serialization error: ".to_owned();
                r.append(m.as_str());
                r
            },
            AnthropicError::Deserialization(m) => {
                let mut r = "Deserialization error: ".to_owned();
                r.append(m.as_str());
                r
            },
        }
    }
}

/// The provider's structured error body: `{type, error: {type, message}}`.
#[derive(Debug, PartialEq, Eq)]
pub struct ApiErrorResponse {
    pub error: ApiErrorDetail,
    pub error_type: String,
}

/// The inner `error` object of a structured error body.
#[derive(Debug, PartialEq, Eq)]
pub struct ApiErrorDetail {
    pub error_type: String,
    pub message: String,
}

impl Clone for ApiErrorDetail {
    fn clone(&self) -> (r: Self)
        ensures
            r == *self,
    {
        ApiErrorDetail { error_type: self.error_type.clone(), message: self.message.clone() }
    }
}

impl Clone for ApiErrorResponse {
    fn clone(&self) -> (r: Self)
        ensures
            r == *self,
    {
        ApiErrorResponse { error: self.error.clone(), error_type: self.error_type.clone() }
    }
}

} // verus!
