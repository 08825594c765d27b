//! A minimal webhook relay.
//!
//! A request addressed to a named application is answered with its own body
//! and a one-line summary, provided its `Authorization` header passes a
//! simple prefix check. A second handler reports liveness.
//!
//! The handlers take the request already parsed (application name, header
//! map, JSON body) and return the HTTP status and the JSON payload to send.
//! Listening, routing, logging and CORS are the caller's business.

pub mod auth;
pub mod echo;
pub mod error;
pub mod headers;
pub mod health;
pub mod json;
pub mod laws;
pub mod quote;
pub mod response;

pub use auth::{check_auth, AuthPolicy};
pub use echo::{echo_app, echo_reply, respond};
pub use error::WebhookError;
pub use headers::{read_auth_header, AuthHeader};
pub use health::health;
pub use response::{EchoResponse, ErrorResponse, Reply};
