//! The response envelope that the peer sends for a call.

use vstd::prelude::*;

verus! {

#[verifier::external_type_specification]
#[verifier::external_body]
pub struct ExValue(serde_json::Value);

/// `{status, retcode, data, echo}` as read off the call connection.
#[derive(Debug)]
pub struct OneBotResponse {
    pub status: String,
    pub retcode: i32,
    pub data: Option<serde_json::Value>,
    pub echo: Option<String>,
}

} // verus!
