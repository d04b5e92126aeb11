//! Message shapes exchanged between the gateway and its services: the
//! registration handshake payloads, the correlated service-call envelopes,
//! and the flat client message set carried over the persistent connection.

use vstd::prelude::*;

use crate::types::{Handler, JqRule, ServiceId, ServiceRequestId};

verus! {

/// One handler a service offers at registration, by declared rule.
#[derive(Debug, Clone)]
pub struct FireboltMethodHandlerRegistration {
    pub firebolt_method: Handler,
}

/// One handler as carried in the registration handshake: the method name it
/// claims and the optional reshaping rule.
#[derive(Debug, Clone)]
pub struct FireboltMethodHandlerAPIRegistration {
    pub firebolt_method: String,
    pub jq_rule: Option<JqRule>,
}

/// `Register`: the set of handlers a service asks the gateway to accept.
#[derive(Debug, Clone)]
pub struct APIGatewayServiceRegistrationRequest {
    pub firebolt_handlers: Vec<FireboltMethodHandlerAPIRegistration>,
}

/// `Registered`: the subset of handlers the gateway accepted.
#[derive(Debug, Clone)]
pub struct APIGatewayServiceRegistrationResponse {
    pub firebolt_handlers: Vec<FireboltMethodHandlerAPIRegistration>,
}

impl From<APIGatewayServiceRegistrationRequest> for APIGatewayServiceRegistrationResponse {
    fn from(request: APIGatewayServiceRegistrationRequest) -> (r: APIGatewayServiceRegistrationResponse) {
        APIGatewayServiceRegistrationResponse { firebolt_handlers: request.firebolt_handlers }
    }
}

impl vstd::std_specs::convert::FromSpecImpl<APIGatewayServiceRegistrationRequest> for APIGatewayServiceRegistrationResponse {
    open spec fn obeys_from_spec() -> bool {
        true
    }

    open spec fn from_spec(request: APIGatewayServiceRegistrationRequest) -> Self {
        APIGatewayServiceRegistrationResponse { firebolt_handlers: request.firebolt_handlers }
    }
}

/// A request as presented to a service's handler.
#[derive(Debug)]
pub struct ServiceRequest {
    pub service_id: ServiceId,
    pub firebolt_method: Handler,
    pub payload: serde_json::Value,
}

/// A service handler's failure reply.
#[derive(Debug, Clone)]
pub struct ServiceErrorResponse {
    pub service_id: ServiceId,
    pub firebolt_method: Handler,
    pub error: String,
}

/// A service handler's success reply.
#[derive(Debug)]
pub struct ServiceSuccessResponse {
    pub service_id: ServiceId,
    pub firebolt_method: Handler,
    pub payload: serde_json::Value,
}

/// Sent by a client at connect time: the handlers it offers.
#[derive(Debug, Clone)]
pub struct APIClientRegistration {
    pub firebolt_handlers: Vec<FireboltMethodHandlerRegistration>,
}

/// A service's declared method ownership, as submitted at the handshake.
#[derive(Debug, Clone)]
pub struct ServiceRegistration {
    pub service_id: ServiceId,
    pub firebolt_handlers: Vec<FireboltMethodHandlerAPIRegistration>,
}

/// Copies a handler list element by element.
pub fn copy_registrations(v: &Vec<FireboltMethodHandlerAPIRegistration>) -> (r: Vec<FireboltMethodHandlerAPIRegistration>)
    ensures
        r@ == v@,
{
    let mut r: Vec<FireboltMethodHandlerAPIRegistration> = Vec::new();
    let mut i: usize = 0;
    while i < v.len()
        invariant
            i <= v.len(),
            r@ == v@.subrange(0, i as int),
        decreases v.len() - i,
    {
        let jq_rule = match &v[i].jq_rule {
            Option::Some(jq) => Option::Some(JqRule { alias: jq.alias.clone(), rule: jq.rule.clone() }),
            Option::None => Option::None,
        };
        r.push(FireboltMethodHandlerAPIRegistration {
            firebolt_method: v[i].firebolt_method.clone(),
            jq_rule,
        });
        proof {
            assert(r@ =~= v@.subrange(0, i + 1 as int));
        }
        i = i + 1;
    }
    proof {
        assert(r@ =~= v@);
    }
    r
}

impl ServiceRegistration {
    pub fn new(service_id: ServiceId, firebolt_handlers: Vec<FireboltMethodHandlerAPIRegistration>) -> (r: Self)
        ensures
            r.service_id == service_id,
            r.firebolt_handlers == firebolt_handlers,
    {
        ServiceRegistration { service_id, firebolt_handlers }
    }

    /// The handler list as declared, for replay at re-registration.
    pub fn get_rule_registrations(&self) -> (r: Vec<FireboltMethodHandlerAPIRegistration>)
        ensures
            r@ == self.firebolt_handlers@,
    {
        copy_registrations(&self.firebolt_handlers)
    }
}

/// What one added handler contributes to the registration under build.
pub open spec fn handler_registration_spec(h: Handler) -> FireboltMethodHandlerAPIRegistration {
    match h {
        Handler::JqRule(jq) => FireboltMethodHandlerAPIRegistration {
            firebolt_method: jq.alias,
            jq_rule: Option::Some(jq),
        },
        Handler::StaticRule(st) => FireboltMethodHandlerAPIRegistration {
            firebolt_method: st.alias,
            jq_rule: Option::Some(JqRule { alias: st.alias, rule: st.rule }),
        },
        Handler::NoRule => arbitrary(),
    }
}

/// Accumulates a service's handler declarations before the handshake.
pub struct ServiceRegistrationBuilder {
    pub service_id: ServiceId,
    pub firebolt_handlers: Vec<FireboltMethodHandlerAPIRegistration>,
}

impl ServiceRegistrationBuilder {
    pub fn new(service_id: ServiceId) -> (r: Self)
        ensures
            r.service_id == service_id,
            r.firebolt_handlers@ == Seq::<FireboltMethodHandlerAPIRegistration>::empty(),
    {
        ServiceRegistrationBuilder { service_id, firebolt_handlers: Vec::new() }
    }

    /// Declares one more handler. A handler with no rule carries no method
    /// name to claim, so it is not accepted here.
    pub fn add_handler(&mut self, firebolt_method: Handler)
        requires
            old(self).firebolt_handlers@.len() < usize::MAX,
            !(firebolt_method is NoRule),
        ensures
            final(self).service_id == old(self).service_id,
            final(self).firebolt_handlers@ == old(self).firebolt_handlers@.push(
                handler_registration_spec(firebolt_method),
            ),
    {
        let m = match firebolt_method {
            Handler::NoRule => unreached(),
            Handler::JqRule(jq_rule) => FireboltMethodHandlerAPIRegistration {
                firebolt_method: jq_rule.alias.clone(),
                jq_rule: Option::Some(jq_rule),
            },
            Handler::StaticRule(static_rule) => FireboltMethodHandlerAPIRegistration {
                firebolt_method: static_rule.alias.clone(),
                jq_rule: Option::Some(JqRule { alias: static_rule.alias, rule: static_rule.rule }),
            },
        };
        self.firebolt_handlers.push(m);
    }

    pub fn build(&self) -> (r: ServiceRegistration)
        ensures
            r.service_id == self.service_id,
            r.firebolt_handlers@ == self.firebolt_handlers@,
    {
        ServiceRegistration {
            service_id: ServiceId { service_id: self.service_id.service_id.clone() },
            firebolt_handlers: copy_registrations(&self.firebolt_handlers),
        }
    }
}

/// A call the gateway forwards to the owning service.
#[derive(Debug)]
pub struct ServiceCall {
    pub request_id: ServiceRequestId,
    pub method: String,
    pub payload: serde_json::Value,
}

/// A service's correlated success reply to a `ServiceCall`.
#[derive(Debug)]
pub struct ServiceCallSuccessResponse {
    pub request_id: ServiceRequestId,
    pub response: serde_json::Value,
}

/// A service's correlated failure reply to a `ServiceCall`.
#[derive(Debug, Clone)]
pub struct ServiceCallErrorResponse {
    pub request_id: ServiceRequestId,
    pub error: String,
}

/// Either terminal reply a service gives to a `ServiceCall`.
#[derive(Debug)]
pub enum ServiceCallResponse {
    Success(ServiceCallSuccessResponse),
    Error(ServiceCallErrorResponse),
}

/// The flat message set carried between a client and the gateway.
#[derive(Debug)]
pub enum APIClientMessages {
    Register(APIGatewayServiceRegistrationRequest),
    Registered(APIGatewayServiceRegistrationResponse),
    Error(String),
    Unregister(ServiceId),
    ServiceCall(ServiceCall),
    ServiceCallSuccessResponse(ServiceCallSuccessResponse),
    ServiceCallErrorResponse(ServiceCallErrorResponse),
}

impl Default for APIClientMessages {
    /// A fresh client message: a registration offering no handlers.
    fn default() -> (r: Self)
        ensures
            r matches APIClientMessages::Register(req) && req.firebolt_handlers@.len() == 0,
    {
        APIClientMessages::Register(APIGatewayServiceRegistrationRequest { firebolt_handlers: Vec::new() })
    }
}

/// Acknowledgement that a service's registration was recorded.
pub struct ServiceRegistrationResponse {
    pub service_id: ServiceId,
}

/// Report that a service's registration was refused, and why.
pub struct ServiceRegistrationFailure {
    pub service_id: ServiceId,
    pub error: String,
}

/// A reply as carried back over the service connection.
#[derive(Debug)]
pub enum WebsocketServiceResponse {
    Success(ServiceRequestId, serde_json::Value),
    Error(ServiceRequestId, String),
}

impl WebsocketServiceResponse {
    /// The correlation id this reply answers, whichever way it went.
    pub fn get_id(&self) -> (r: ServiceRequestId)
        ensures
            r == self.id_spec(),
    {
        match self {
            WebsocketServiceResponse::Success(id, _) => *id,
            WebsocketServiceResponse::Error(id, _) => *id,
        }
    }

    pub open spec fn id_spec(&self) -> ServiceRequestId {
        match self {
            WebsocketServiceResponse::Success(id, _) => *id,
            WebsocketServiceResponse::Error(id, _) => *id,
        }
    }
}

/// A request carried over the service connection, with its single-use reply
/// channel.
pub struct WebsocketServiceRequest {
    pub request_id: ServiceRequestId,
    pub method: String,
    pub payload: serde_json::Value,
    pub respond_to: tokio::sync::oneshot::Sender<WebsocketServiceResponse>,
}

/// A request on the flat bidirectional surface.
#[derive(Debug, Clone)]
pub struct FireboltRequest {
    pub request_id: String,
    pub payload: String,
}

/// A response on the flat bidirectional surface.
#[derive(Debug, Clone)]
pub struct FireboltResponse {
    pub request_id: String,
    pub payload: String,
}

} // verus!
