//! The liveness probe.

use crate::json::{insert_field, json_object, json_string, new_fields, object_value, string_value};
use crate::response::Reply;
use vstd::prelude::*;

verus! {

/// The JSON object `{"status": "OK"}`.
pub open spec fn health_json() -> serde_json::Value {
    json_object(map!["status"@ => json_string("OK"@)])
}

/// Reports that the relay is up. The answer is the same whatever the request
/// looked like: status 200 and `{"status": "OK"}`.
pub fn health() -> (reply: Reply)
    ensures
        reply == (Reply { status_code: 200, payload: health_json() }),
{
    let mut fields = new_fields();
    insert_field(&mut fields, "status".to_owned(), string_value("OK".to_owned()));
    Reply { status_code: 200, payload: object_value(fields) }
}

} // verus!
