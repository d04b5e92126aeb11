//! The JSON-RPC response envelope the gateway hands back to callers, and how
//! a routed request's terminal outcome becomes one.

use vstd::prelude::*;

use crate::routing::ServiceRoutingResponse;
use crate::types::RoutingError;

verus! {

/// Error code carried when a routed request ends in a service error.
pub const JSON_RPC_SERVICE_ERROR_CODE: i64 = -32000;

/// The error member of a JSON-RPC error envelope.
#[derive(Debug, Clone)]
pub struct JsonRpcError {
    pub code: i64,
    pub message: String,
}

/// A JSON-RPC response envelope: a success carries `result`, a failure
/// carries `error`, each under the original request id.
#[derive(Debug)]
pub struct JsonRpcApiResponse {
    pub jsonrpc: String,
    pub id: Option<u64>,
    pub result: Option<serde_json::Value>,
    pub error: Option<JsonRpcError>,
    pub method: Option<String>,
    pub params: Option<serde_json::Value>,
}

/// A success envelope: `{jsonrpc: "2.0", id, result}`.
pub fn success_response(id: u64, value: serde_json::Value) -> (r: JsonRpcApiResponse)
    ensures
        r.jsonrpc@ == "2.0"@,
        r.id == Some(id),
        r.result == Some(value),
        r.error is None,
        r.method is None,
        r.params is None,
{
    JsonRpcApiResponse {
        jsonrpc: String::from_str("2.0"),
        id: Some(id),
        result: Some(value),
        error: None,
        method: None,
        params: None,
    }
}

/// An error envelope: `{jsonrpc: "2.0", id, error: {code, message}}`.
pub fn error_response(id: u64, code: i64, message: String) -> (r: JsonRpcApiResponse)
    ensures
        r.jsonrpc@ == "2.0"@,
        r.id == Some(id),
        r.result is None,
        r.error matches Some(e) && e.code == code && e.message == message,
        r.method is None,
        r.params is None,
{
    JsonRpcApiResponse {
        jsonrpc: String::from_str("2.0"),
        id: Some(id),
        result: None,
        error: Some(JsonRpcError { code, message }),
        method: None,
        params: None,
    }
}

/// Translates a routed request's terminal outcome into the JSON-RPC envelope
/// the original caller receives: a success keeps its value as `result`, an
/// error keeps its message, and both keep the original request id.
pub fn routing_response_to_json_rpc(response: ServiceRoutingResponse) -> (r: JsonRpcApiResponse)
    ensures
        r.jsonrpc@ == "2.0"@,
        r.method is None,
        r.params is None,
        match response {
            ServiceRoutingResponse::Success(s) => r.id == Some(s.request_id.request_id)
                && r.result == Some(s.response) && r.error is None,
            ServiceRoutingResponse::Error(e) => r.id == Some(e.request_id.request_id)
                && r.result is None && (r.error matches Some(err)
                && err.code == JSON_RPC_SERVICE_ERROR_CODE && err.message == e.error),
        },
{
    match response {
        ServiceRoutingResponse::Success(s) => success_response(s.request_id.request_id, s.response),
        ServiceRoutingResponse::Error(e) => error_response(
            e.request_id.request_id,
            JSON_RPC_SERVICE_ERROR_CODE,
            e.error,
        ),
    }
}

/// The envelope for a request the broker could not submit to the gateway's
/// inbound queue — the queue was full or closed. The caller still observes
/// one outcome: a dispatch error, never a silent drop.
pub fn dispatch_error_response(id: u64, error: RoutingError) -> (r: JsonRpcApiResponse)
    requires
        error == RoutingError::MailboxFull || error == RoutingError::MailboxClosed,
    ensures
        r.jsonrpc@ == "2.0"@,
        r.id == Some(id),
        r.result is None,
        r.method is None,
        r.params is None,
        r.error matches Some(e) && e.code == JSON_RPC_SERVICE_ERROR_CODE,
        error == RoutingError::MailboxFull ==> (r.error matches Some(e) && e.message@
            == "mailbox full"@),
        error == RoutingError::MailboxClosed ==> (r.error matches Some(e) && e.message@
            == "mailbox closed"@),
{
    let message = match error {
        RoutingError::MailboxFull => String::from_str("mailbox full"),
        _ => String::from_str("mailbox closed"),
    };
    error_response(id, JSON_RPC_SERVICE_ERROR_CODE, message)
}

/// The envelope for a request whose reply channel died with no outcome — the
/// service connection dropped mid-flight. The caller still gets one
/// well-formed error response.
pub fn transport_error_response(id: u64) -> (r: JsonRpcApiResponse)
    ensures
        r.jsonrpc@ == "2.0"@,
        r.id == Some(id),
        r.result is None,
        r.error matches Some(e) && e.code == JSON_RPC_SERVICE_ERROR_CODE
            && e.message@ == "transport disconnected"@,
        r.method is None,
        r.params is None,
{
    error_response(id, JSON_RPC_SERVICE_ERROR_CODE, String::from_str("transport disconnected"))
}

} // verus!
