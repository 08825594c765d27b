use serde_json::Value;
use webhook_relay::{health, EchoResponse, ErrorResponse, Reply, WebhookError};

fn json(text: &str) -> Value {
    serde_json::from_str(text).unwrap()
}

#[test]
fn health_is_ok() {
    let reply = health();
    assert_eq!(reply.status_code, 200);
    assert_eq!(reply.payload, json(r#"{"status":"OK"}"#));
}

#[test]
fn health_is_the_same_every_time() {
    assert_eq!(health(), health());
    assert_eq!(
        serde_json::to_string(&health().payload).unwrap(),
        r#"{"status":"OK"}"#
    );
}

#[test]
fn error_status_codes() {
    assert_eq!(WebhookError::NoAuthHeader.status_code(), 400);
    assert_eq!(WebhookError::Unauthorized.status_code(), 401);
    assert_eq!(WebhookError::InternalError.status_code(), 500);
}

#[test]
fn error_details() {
    assert_eq!(
        WebhookError::NoAuthHeader.detail(),
        "No Authorization header found."
    );
    assert_eq!(WebhookError::Unauthorized.detail(), "User is not authorized.");
    assert_eq!(WebhookError::InternalError.detail(), "Internal server error.");
}

#[test]
fn error_payloads() {
    assert_eq!(
        WebhookError::NoAuthHeader.payload(),
        ErrorResponse {
            status: "Error".to_string(),
            detail: "No Authorization header found.".to_string(),
        }
    );
    assert_eq!(
        WebhookError::Unauthorized.payload(),
        ErrorResponse {
            status: "Error".to_string(),
            detail: "User is not authorized.".to_string(),
        }
    );
    assert_eq!(
        WebhookError::InternalError.payload(),
        ErrorResponse {
            status: "Error".to_string(),
            detail: "Internal server error.".to_string(),
        }
    );
}

#[test]
fn no_auth_header_into_response() {
    let reply = WebhookError::NoAuthHeader.into_response();
    assert_eq!(
        reply,
        Reply {
            status_code: 400,
            payload: json(r#"{"status":"Error","detail":"No Authorization header found."}"#),
        }
    );
}

#[test]
fn unauthorized_into_response() {
    let reply = WebhookError::Unauthorized.into_response();
    assert_eq!(
        reply,
        Reply {
            status_code: 401,
            payload: json(r#"{"status":"Error","detail":"User is not authorized."}"#),
        }
    );
}

#[test]
fn internal_error_into_response() {
    let reply = WebhookError::InternalError.into_response();
    assert_eq!(
        reply,
        Reply {
            status_code: 500,
            payload: json(r#"{"status":"Error","detail":"Internal server error."}"#),
        }
    );
}

#[test]
fn error_response_to_json_has_two_members() {
    let value = ErrorResponse {
        status: "Error".to_string(),
        detail: "why".to_string(),
    }
    .to_json();
    let members = value.as_object().unwrap();
    assert_eq!(members.len(), 2);
    assert_eq!(members.get("status"), Some(&Value::String("Error".to_string())));
    assert_eq!(members.get("detail"), Some(&Value::String("why".to_string())));
}

#[test]
fn echo_response_to_json_has_three_members() {
    let body = json(r#"{"k":[1,2,3]}"#);
    let value = EchoResponse {
        status: "OK".to_string(),
        result: "summary".to_string(),
        body: body.clone(),
    }
    .to_json();
    let members = value.as_object().unwrap();
    assert_eq!(members.len(), 3);
    assert_eq!(members.get("status"), Some(&Value::String("OK".to_string())));
    assert_eq!(
        members.get("result"),
        Some(&Value::String("summary".to_string()))
    );
    assert_eq!(members.get("body"), Some(&body));
}

#[test]
fn echo_response_into_response_is_200() {
    let reply = EchoResponse {
        status: "OK".to_string(),
        result: "summary".to_string(),
        body: Value::Null,
    }
    .into_response();
    assert_eq!(reply.status_code, 200);
    assert_eq!(
        reply.payload,
        json(r#"{"status":"OK","result":"summary","body":null}"#)
    );
}

#[test]
fn a_string_member_is_not_mistaken_for_other_json() {
    let value = ErrorResponse {
        status: "true".to_string(),
        detail: "{}".to_string(),
    }
    .to_json();
    assert_eq!(value, json(r#"{"status":"true","detail":"{}"}"#));
    assert_ne!(value, json(r#"{"status":true,"detail":{}}"#));
}
