//! What holds of every request, proved from the definitions that the
//! handlers' contracts are written with.

use crate::auth::{auth_decision, AuthPolicy};
use crate::echo::{echo_message_text, echo_outcome, reply_for};
use crate::error::WebhookError;
use crate::headers::{auth_header_of, header_first, AuthHeaderModel};
use crate::json::{json_object, json_string};
use crate::response::Reply;
use axum::http::header::{HeaderMap, HeaderValue};
use vstd::prelude::*;

verus! {

/// A request without an `Authorization` header is refused with
/// `NoAuthHeader`, and the reply is status 400 with the payload
/// `{"status": "Error", "detail": "No Authorization header found."}`,
/// whatever the policy, the application name and the body.
pub proof fn missing_header_is_bad_request(
    policy: AuthPolicy,
    app_name: Seq<char>,
    headers: HeaderMap<HeaderValue>,
    body: serde_json::Value,
)
    requires
        header_first(headers, "Authorization"@) is None,
    ensures
        echo_outcome(policy, app_name, auth_header_of(headers), body) matches Err(
            WebhookError::NoAuthHeader,
        ),
        reply_for(echo_outcome(policy, app_name, auth_header_of(headers), body)).status_code
            == 400,
        reply_for(echo_outcome(policy, app_name, auth_header_of(headers), body)).payload
            == json_object(
            map![
                "status"@ => json_string("Error"@),
                "detail"@ => json_string("No Authorization header found."@),
            ],
        ),
{
}

/// A successful echo carries the body it was given, unchanged, both in the
/// response and as the `body` member of the JSON payload, and is sent with
/// status 200.
pub proof fn echo_keeps_body(
    policy: AuthPolicy,
    app_name: Seq<char>,
    header: AuthHeaderModel,
    body: serde_json::Value,
)
    ensures
        echo_outcome(policy, app_name, header, body) matches Ok(response) ==> {
            &&& response.body == body
            &&& response.status == "OK"@
            &&& reply_for(Ok(response)).status_code == 200
            &&& reply_for(Ok(response)).payload == json_object(
                map![
                    "status"@ => json_string("OK"@),
                    "result"@ => json_string(response.result),
                    "body"@ => body,
                ],
            )
        },
{
}

/// The relay keeps nothing from one request to the next: two replies to the
/// same policy, application name, headers and body are the same reply.
pub proof fn same_request_same_reply(
    policy: AuthPolicy,
    app_name: Seq<char>,
    headers: HeaderMap<HeaderValue>,
    body: serde_json::Value,
    first: Reply,
    second: Reply,
)
    requires
        first == reply_for(echo_outcome(policy, app_name, auth_header_of(headers), body)),
        second == reply_for(echo_outcome(policy, app_name, auth_header_of(headers), body)),
    ensures
        first == second,
{
}

/// Every request gets exactly one of the two payloads: an echo with status
/// 200, or an error with status 400, 401 or 500.
pub proof fn reply_status_tells_the_outcome(
    policy: AuthPolicy,
    app_name: Seq<char>,
    header: AuthHeaderModel,
    body: serde_json::Value,
)
    ensures
        ({
            let outcome = echo_outcome(policy, app_name, header, body);
            let code = reply_for(outcome).status_code;
            &&& outcome is Ok <==> code == 200
            &&& (outcome matches Err(WebhookError::NoAuthHeader)) <==> code == 400
            &&& (outcome matches Err(WebhookError::Unauthorized)) <==> code == 401
            &&& (outcome matches Err(WebhookError::InternalError)) <==> code == 500
        }),
{
}

/// The summary line holds the two quoted names whole and in order: the
/// application name right after `Running `, the header right after
/// `, Auth `, and nothing else.
pub proof fn summary_holds_both_names(app_quoted: Seq<char>, auth_quoted: Seq<char>)
    ensures
        ({
            let line = echo_message_text(app_quoted, auth_quoted);
            let app_end = 8 + app_quoted.len() as int;
            &&& line.len() == app_end + 7 + auth_quoted.len()
            &&& line.subrange(0, 8) == "Running "@
            &&& line.subrange(8, app_end) == app_quoted
            &&& line.subrange(app_end, app_end + 7) == ", Auth "@
            &&& line.subrange(app_end + 7, line.len() as int) == auth_quoted
        }),
{
    reveal_strlit("Running ");
    reveal_strlit(", Auth ");
}

/// Under either policy a bearer credential, `Bearer`, a space and a token
/// that is not empty, is refused as unauthorized.
pub proof fn bearer_credential_is_refused(policy: AuthPolicy, token: Seq<char>)
    requires
        token.len() > 0,
    ensures
        auth_decision(policy, "Bearer "@ + token) matches Err(WebhookError::Unauthorized),
{
    reveal_strlit("Bearer ");
    reveal_strlit("Bearer");
    let auth = "Bearer "@ + token;
    assert("Bearer "@ =~= auth.subrange(0, 7));
    assert("Bearer"@ =~= auth.subrange(0, 6));
}

/// The six-character policy lets a header through exactly when it has at
/// least six characters and the first six are not `Bearer`; it refuses every
/// other header as unauthorized.
pub proof fn scheme_word_decision(auth: Seq<char>)
    ensures
        auth_decision(AuthPolicy::SchemeWord, auth) is Ok <==> auth.len() >= 6 && auth.subrange(
            0,
            6,
        ) != "Bearer"@,
        auth_decision(AuthPolicy::SchemeWord, auth) is Err ==> auth_decision(
            AuthPolicy::SchemeWord,
            auth,
        ) matches Err(WebhookError::Unauthorized),
{
    reveal_strlit("Bearer");
    if auth.len() >= 6 {
        assert("Bearer"@.is_prefix_of(auth) <==> auth.subrange(0, 6) == "Bearer"@);
    }
}

/// The eight-character policy fails with an internal error exactly on
/// headers of fewer than eight characters, and otherwise refuses exactly the
/// headers whose first seven characters are `Bearer` and a space.
pub proof fn scheme_and_space_decision(auth: Seq<char>)
    ensures
        (auth_decision(AuthPolicy::SchemeAndSpace, auth) matches Err(WebhookError::InternalError))
            <==> auth.len() < 8,
        (auth_decision(AuthPolicy::SchemeAndSpace, auth) matches Err(WebhookError::Unauthorized))
            <==> auth.len() >= 8 && auth.subrange(0, 7) == "Bearer "@,
        !(auth_decision(AuthPolicy::SchemeAndSpace, auth) matches Err(WebhookError::NoAuthHeader)),
{
    reveal_strlit("Bearer ");
    if auth.len() >= 8 {
        assert("Bearer "@.is_prefix_of(auth) <==> auth.subrange(0, 7) == "Bearer "@);
    }
}

} // verus!
