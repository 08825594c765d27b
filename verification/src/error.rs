//! The closed set of ways a request can fail, and the answer each one gets.

use crate::response::{error_json, ErrorResponse, ErrorResponseModel, Reply};
use vstd::prelude::*;

verus! {

/// Why a request was turned away.
#[derive(Debug, Clone, Copy, PartialEq, Eq, Structural)]
pub enum WebhookError {
    /// The request carried no `Authorization` header.
    NoAuthHeader,
    /// The `Authorization` header was present and refused.
    Unauthorized,
    /// The header could not be read as far as the check needs: it is not
    /// text, or it ends before the characters that the check compares.
    InternalError,
}

impl WebhookError {
    /// The HTTP status that answers this error.
    pub open spec fn spec_status_code(self) -> u16 {
        match self {
            WebhookError::NoAuthHeader => 400,
            WebhookError::Unauthorized => 401,
            WebhookError::InternalError => 500,
        }
    }

    /// The message that answers this error.
    pub open spec fn spec_detail(self) -> Seq<char> {
        match self {
            WebhookError::NoAuthHeader => "No Authorization header found."@,
            WebhookError::Unauthorized => "User is not authorized."@,
            WebhookError::InternalError => "Internal server error."@,
        }
    }

    /// The payload that answers this error.
    pub open spec fn spec_payload(self) -> ErrorResponseModel {
        ErrorResponseModel { status: "Error"@, detail: self.spec_detail() }
    }

    /// The reply that answers this error: its status and its payload as JSON.
    pub open spec fn spec_into_response(self) -> Reply {
        Reply { status_code: self.spec_status_code(), payload: error_json(self.spec_payload()) }
    }

    /// The HTTP status that answers this error.
    #[verifier::when_used_as_spec(spec_status_code)]
    pub fn status_code(self) -> (code: u16)
        ensures
            code == self.spec_status_code(),
    {
        match self {
            WebhookError::NoAuthHeader => 400,
            WebhookError::Unauthorized => 401,
            WebhookError::InternalError => 500,
        }
    }

    /// The message that answers this error.
    pub fn detail(self) -> (message: &'static str)
        ensures
            message@ == self.spec_detail(),
    {
        match self {
            WebhookError::NoAuthHeader => "No Authorization header found.",
            WebhookError::Unauthorized => "User is not authorized.",
            WebhookError::InternalError => "Internal server error.",
        }
    }

    /// The payload that answers this error: the status `Error` and the
    /// error's message.
    pub fn payload(self) -> (response: ErrorResponse)
        ensures
            response@ == self.spec_payload(),
    {
        ErrorResponse { status: "Error".to_owned(), detail: self.detail().to_owned() }
    }

    /// The reply that answers this error: its status and its payload as JSON.
    pub fn into_response(self) -> (reply: Reply)
        ensures
            reply == self.spec_into_response(),
    {
        Reply { status_code: self.status_code(), payload: self.payload().to_json() }
    }
}

} // verus!
