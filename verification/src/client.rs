//! The service-side client's message handling, as a step function: what one
//! inbound gateway message asks of the client. The transport loop that feeds
//! it — the websocket, serialization, reconnect sleeps — lives outside the
//! library and consults `Backoff` for its delays.

use vstd::prelude::*;

use crate::messages::{
    APIClientMessages, APIGatewayServiceRegistrationRequest, ServiceCall,
    ServiceCallErrorResponse, ServiceCallSuccessResponse, ServiceRegistration,
};

verus! {

/// What a service implements to answer the gateway's calls: registration of
/// its handlers, the call handler itself, and lifecycle notices. The client
/// transport drives it; no implementation lives in this crate.
pub trait ServiceRequestHandler: Send + Sync {
    /// The handlers this service offers, consulted after each connect.
    fn register(&self) -> Vec<crate::messages::FireboltMethodHandlerRegistration>;

    /// Answers one forwarded call with exactly one reply.
    fn handle_request(&self, request: ServiceCall) -> Result<
        ServiceCallSuccessResponse,
        ServiceCallErrorResponse,
    >;

    /// The gateway acknowledged the registration.
    fn on_connected(&self);

    /// The connection dropped; the client will reconnect and re-register.
    fn on_disconnected(&self);

    /// Whether the service considers itself able to answer.
    fn healthy(&self) -> bool;
}

/// What one inbound message asks of the client.
pub enum ClientAction {
    /// Nothing to do: acknowledgements and traffic meant for the gateway.
    Ignore,
    /// The gateway recorded the registration: the handler learns it is
    /// connected.
    Connected,
    /// The gateway forwarded a call: hand it to the service's handler and
    /// send the reply back.
    HandleCall(ServiceCall),
}

/// Decides how the client reacts to one inbound message. A `Registered`
/// acknowledgement completes the handshake; a `ServiceCall` goes to the
/// handler; everything else — including malformed or misdirected traffic —
/// is ignored and the connection stays open.
pub fn client_step(message: APIClientMessages) -> (r: ClientAction)
    ensures
        match message {
            APIClientMessages::Registered(_) => r is Connected,
            APIClientMessages::ServiceCall(call) => r matches ClientAction::HandleCall(c) && c == call,
            APIClientMessages::Register(_) => r is Ignore,
            APIClientMessages::Error(_) => r is Ignore,
            APIClientMessages::Unregister(_) => r is Ignore,
            APIClientMessages::ServiceCallSuccessResponse(_) => r is Ignore,
            APIClientMessages::ServiceCallErrorResponse(_) => r is Ignore,
        },
{
    match message {
        APIClientMessages::Registered(_) => ClientAction::Connected,
        APIClientMessages::ServiceCall(call) => ClientAction::HandleCall(call),
        APIClientMessages::Register(_) => ClientAction::Ignore,
        APIClientMessages::Error(_) => ClientAction::Ignore,
        APIClientMessages::Unregister(_) => ClientAction::Ignore,
        APIClientMessages::ServiceCallSuccessResponse(_) => ClientAction::Ignore,
        APIClientMessages::ServiceCallErrorResponse(_) => ClientAction::Ignore,
    }
}

/// Wraps the handler's verdict on one call as the message sent back over the
/// connection.
pub fn reply_message(result: Result<ServiceCallSuccessResponse, ServiceCallErrorResponse>) -> (r: APIClientMessages)
    ensures
        match result {
            Ok(s) => r == APIClientMessages::ServiceCallSuccessResponse(s),
            Err(e) => r == APIClientMessages::ServiceCallErrorResponse(e),
        },
{
    match result {
        Ok(s) => APIClientMessages::ServiceCallSuccessResponse(s),
        Err(e) => APIClientMessages::ServiceCallErrorResponse(e),
    }
}

/// The registration handshake message a client opens each (re)connect with:
/// the full declared handler set, replayed verbatim.
pub fn registration_message(registration: &ServiceRegistration) -> (r: APIClientMessages)
    ensures
        r matches APIClientMessages::Register(req) && req.firebolt_handlers@
            == registration.firebolt_handlers@,
{
    APIClientMessages::Register(APIGatewayServiceRegistrationRequest {
        firebolt_handlers: registration.get_rule_registrations(),
    })
}

} // verus!
