//! What the relay answers: the two payloads, and the reply that carries one
//! of them with its HTTP status.

use crate::json::{insert_field, json_object, json_string, new_fields, object_value, string_value};
use vstd::prelude::*;

verus! {

/// The payload of a successful echo.
#[derive(Debug, PartialEq, Eq)]
pub struct EchoResponse {
    /// Always `OK`.
    pub status: String,
    /// A one-line summary naming the application and the header it came with.
    pub result: String,
    /// The request body, handed back as it came.
    pub body: serde_json::Value,
}

/// The payload of a refusal.
#[derive(Debug, PartialEq, Eq)]
pub struct ErrorResponse {
    /// Always `Error`.
    pub status: String,
    /// The reason, in words.
    pub detail: String,
}

/// An HTTP status and the JSON payload sent with it.
#[derive(Debug, PartialEq, Eq)]
pub struct Reply {
    /// The HTTP status: 200, 400, 401 or 500.
    pub status_code: u16,
    /// The JSON object to send as the response body.
    pub payload: serde_json::Value,
}

/// An `EchoResponse` with its strings as character sequences.
pub struct EchoResponseModel {
    pub status: Seq<char>,
    pub result: Seq<char>,
    pub body: serde_json::Value,
}

/// An `ErrorResponse` with its strings as character sequences.
pub struct ErrorResponseModel {
    pub status: Seq<char>,
    pub detail: Seq<char>,
}

impl View for EchoResponse {
    type V = EchoResponseModel;

    open spec fn view(&self) -> EchoResponseModel {
        EchoResponseModel { status: self.status@, result: self.result@, body: self.body }
    }
}

impl View for ErrorResponse {
    type V = ErrorResponseModel;

    open spec fn view(&self) -> ErrorResponseModel {
        ErrorResponseModel { status: self.status@, detail: self.detail@ }
    }
}

/// The JSON object `{"status": .., "result": .., "body": ..}` of an echo.
pub open spec fn echo_json(response: EchoResponseModel) -> serde_json::Value {
    json_object(
        map![
            "status"@ => json_string(response.status),
            "result"@ => json_string(response.result),
            "body"@ => response.body,
        ],
    )
}

/// The JSON object `{"status": .., "detail": ..}` of a refusal.
pub open spec fn error_json(response: ErrorResponseModel) -> serde_json::Value {
    json_object(
        map![
            "status"@ => json_string(response.status),
            "detail"@ => json_string(response.detail),
        ],
    )
}

impl EchoResponse {
    /// The payload as a JSON object with the members `status`, `result` and
    /// `body`.
    pub fn to_json(self) -> (value: serde_json::Value)
        ensures
            value == echo_json(self@),
    {
        let mut fields = new_fields();
        insert_field(&mut fields, "status".to_owned(), string_value(self.status));
        insert_field(&mut fields, "result".to_owned(), string_value(self.result));
        insert_field(&mut fields, "body".to_owned(), self.body);
        object_value(fields)
    }

    /// The reply that carries this payload: status 200.
    pub fn into_response(self) -> (reply: Reply)
        ensures
            reply == (Reply { status_code: 200, payload: echo_json(self@) }),
    {
        Reply { status_code: 200, payload: self.to_json() }
    }
}

impl ErrorResponse {
    /// The payload as a JSON object with the members `status` and `detail`.
    pub fn to_json(self) -> (value: serde_json::Value)
        ensures
            value == error_json(self@),
    {
        let mut fields = new_fields();
        insert_field(&mut fields, "status".to_owned(), string_value(self.status));
        insert_field(&mut fields, "detail".to_owned(), string_value(self.detail));
        object_value(fields)
    }
}

} // verus!
