//! The echo handler: read the `Authorization` header, run the check, and
//! answer with the request's own body or with the reason for refusing it.

use crate::auth::{auth_decision, check_auth, AuthPolicy};
use crate::error::WebhookError;
use crate::headers::{auth_header_of, read_auth_header, AuthHeader, AuthHeaderModel};
use crate::quote::{debug_quote, debug_quoted};
use crate::response::{echo_json, EchoResponse, EchoResponseModel, Reply};
use axum::http::header::{HeaderMap, HeaderValue};
use vstd::prelude::*;
use vstd::string::StringExecFns;

verus! {

/// The summary line of an echo, from the two names already quoted.
pub open spec fn echo_message_text(app_quoted: Seq<char>, auth_quoted: Seq<char>) -> Seq<char> {
    "Running "@ + app_quoted + ", Auth "@ + auth_quoted
}

/// The payload of a successful echo.
pub open spec fn echo_response(app_name: Seq<char>, auth: Seq<char>, body: serde_json::Value) -> EchoResponseModel {
    EchoResponseModel {
        status: "OK"@,
        result: echo_message_text(debug_quoted(app_name), debug_quoted(auth)),
        body,
    }
}

/// What the echo handler makes of a request.
pub open spec fn echo_outcome(
    policy: AuthPolicy,
    app_name: Seq<char>,
    header: AuthHeaderModel,
    body: serde_json::Value,
) -> Result<EchoResponseModel, WebhookError> {
    match header {
        AuthHeaderModel::Missing => Err(WebhookError::NoAuthHeader),
        AuthHeaderModel::Unreadable => Err(WebhookError::InternalError),
        AuthHeaderModel::Text(auth) => match auth_decision(policy, auth) {
            Ok(_) => Ok(echo_response(app_name, auth, body)),
            Err(error) => Err(error),
        },
    }
}

/// An outcome with the strings of its payload as character sequences.
pub open spec fn outcome_model(outcome: Result<EchoResponse, WebhookError>) -> Result<EchoResponseModel, WebhookError> {
    match outcome {
        Ok(response) => Ok(response@),
        Err(error) => Err(error),
    }
}

/// The reply that carries an outcome: status 200 with the echo, or the
/// error's own status with its message.
pub open spec fn reply_for(outcome: Result<EchoResponseModel, WebhookError>) -> Reply {
    match outcome {
        Ok(response) => Reply { status_code: 200, payload: echo_json(response) },
        Err(error) => error.spec_into_response(),
    }
}

/// Puts the summary line together: `Running `, the quoted application name,
/// `, Auth ` and the quoted header.
pub fn echo_message(app_quoted: &str, auth_quoted: &str) -> (message: String)
    ensures
        message@ == echo_message_text(app_quoted@, auth_quoted@),
{
    let mut message = String::from_str("Running ");
    message.append(app_quoted);
    message.append(", Auth ");
    message.append(auth_quoted);
    message
}

/// Answers a request whose `Authorization` header has been read.
///
/// A missing header is `NoAuthHeader`, an unreadable one `InternalError`. A
/// header with text goes through the check; where it passes, the answer
/// carries the summary line and the body exactly as it was handed in.
pub fn echo_reply(
    policy: AuthPolicy,
    app_name: &str,
    header: AuthHeader<'_>,
    body: serde_json::Value,
) -> (outcome: Result<EchoResponse, WebhookError>)
    ensures
        outcome_model(outcome) == echo_outcome(policy, app_name@, header@, body),
        outcome matches Ok(response) ==> response.body == body,
{
    match header {
        AuthHeader::Missing => Err(WebhookError::NoAuthHeader),
        AuthHeader::Unreadable => Err(WebhookError::InternalError),
        AuthHeader::Text(auth) => match check_auth(policy, auth) {
            Err(error) => Err(error),
            Ok(_) => {
                let app_quoted = debug_quote(app_name);
                let auth_quoted = debug_quote(auth);
                Ok(
                    EchoResponse {
                        status: "OK".to_owned(),
                        result: echo_message(app_quoted.as_str(), auth_quoted.as_str()),
                        body,
                    },
                )
            },
        },
    }
}

/// Handles a request addressed to the application `app_name`.
pub fn echo_app(
    policy: AuthPolicy,
    app_name: &str,
    headers: &HeaderMap<HeaderValue>,
    body: serde_json::Value,
) -> (outcome: Result<EchoResponse, WebhookError>)
    ensures
        outcome_model(outcome) == echo_outcome(policy, app_name@, auth_header_of(*headers), body),
        outcome matches Ok(response) ==> response.body == body,
{
    echo_reply(policy, app_name, read_auth_header(headers), body)
}

/// Handles a request addressed to the application `app_name` and renders the
/// outcome as an HTTP status with a JSON payload.
pub fn respond(
    policy: AuthPolicy,
    app_name: &str,
    headers: &HeaderMap<HeaderValue>,
    body: serde_json::Value,
) -> (reply: Reply)
    ensures
        reply == reply_for(echo_outcome(policy, app_name@, auth_header_of(*headers), body)),
{
    match echo_app(policy, app_name, headers, body) {
        Ok(response) => response.into_response(),
        Err(error) => error.into_response(),
    }
}

} // verus!
