//! Request and response payloads of the API, and its errors.

use vstd::prelude::*;

use crate::json::JsonValue;
use crate::runtime::types::{RuntimeError, runtime_error_message};
use crate::text::concat2;

verus! {

broadcast use vstd::string::group_string_axioms;

/// A message for the agent, in a session or a new one.
#[derive(Debug)]
pub struct RunRequest {
    pub session_id: Option<String>,
    pub message: String,
}

/// The agent's answer.
#[derive(Debug)]
pub struct RunResponse {
    pub response: String,
    pub tool_calls: Vec<JsonValue>,
    pub session_id: String,
    pub finish_reason: String,
    pub skill_used: Option<String>,
}

/// A direct tool call.
#[derive(Debug)]
pub struct ToolCallRequest {
    pub tool_name: String,
    pub parameters: JsonValue,
}

/// The answer to a direct tool call: whether it succeeded, the tool's output
/// (none on failure) and the error (none on success).
#[derive(Debug)]
pub struct ToolCallResponse {
    pub success: bool,
    pub output: Option<String>,
    pub error: Option<String>,
}

/// A request naming a session.
#[derive(Debug)]
pub struct SessionRequest {
    pub session_id: String,
}

/// The list of sessions.
#[derive(Debug)]
pub struct SessionListResponse {
    pub sessions: Vec<String>,
    pub count: usize,
}

/// A session's history.
#[derive(Debug)]
pub struct SessionResponse {
    pub session_id: String,
    pub history: Vec<JsonValue>,
    pub metadata: JsonValue,
}

/// The body of an error answer.
#[derive(Debug)]
pub struct ErrorResponse {
    pub error: String,
    pub code: u16,
    pub details: Option<String>,
}

/// An error answered over HTTP.
#[derive(Debug)]
pub enum ApiError {
    BadRequest(String),
    Unauthorized(String),
    NotFound(String),
    InternalServerError(String),
    Runtime(RuntimeError),
}

/// The HTTP status of an API error.
pub open spec fn status_of(e: ApiError) -> u16 {
    match e {
        ApiError::BadRequest(_) => 400,
        ApiError::Unauthorized(_) => 401,
        ApiError::NotFound(_) => 404,
        ApiError::InternalServerError(_) => 500,
        ApiError::Runtime(_) => 500,
    }
}

/// The message of an API error.
pub open spec fn api_error_message(e: ApiError) -> Seq<char> {
    match e {
        ApiError::BadRequest(s) => "Bad request: "@ + s@,
        ApiError::Unauthorized(s) => "Unauthorized: "@ + s@,
        ApiError::NotFound(s) => "Not found: "@ + s@,
        ApiError::InternalServerError(s) => "Internal server error: "@ + s@,
        ApiError::Runtime(r) => "Runtime error: "@ + runtime_error_message(r),
    }
}

impl ApiError {
    /// The HTTP status: 400, 401, 404, or 500 for internal and runtime errors.
    pub fn status_code(&self) -> (c: u16)
        ensures
            c == status_of(*self),
    {
        match self {
            ApiError::BadRequest(_) => 400,
            ApiError::Unauthorized(_) => 401,
            ApiError::NotFound(_) => 404,
            ApiError::InternalServerError(_) => 500,
            ApiError::Runtime(_) => 500,
        }
    }

    /// The error message, e.g. "Not found: <detail>".
    pub fn message(&self) -> (m: String)
        ensures
            m@ == api_error_message(*self),
    {
        match self {
            ApiError::BadRequest(s) => concat2("Bad request: ", s.as_str()),
            ApiError::Unauthorized(s) => concat2("Unauthorized: ", s.as_str()),
            ApiError::NotFound(s) => concat2("Not found: ", s.as_str()),
            ApiError::InternalServerError(s) => concat2("Internal server error: ", s.as_str()),
            ApiError::Runtime(r) => concat2("Runtime error: ", r.message().as_str()),
        }
    }

    /// The body answered for the error: its message and status, no details.
    pub fn error_response(&self) -> (r: ErrorResponse)
        ensures
            r.error@ == api_error_message(*self),
            r.code == status_of(*self),
            r.details is None,
    {
        ErrorResponse { error: self.message(), code: self.status_code(), details: None }
    }
}

} // verus!
