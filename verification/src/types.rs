//! Core data types shared by the gateway, the services and the provider layer:
//! handler rules, service identities, registration payloads and the message
//! envelopes exchanged between a service and the gateway.

use vstd::prelude::*;

verus! {

/// A reply-reshaping rule declared by a service: apply the given filter
/// expression and publish the result under `alias`.
#[derive(Debug, Clone)]
pub struct JqRule {
    pub alias: String,
    pub rule: String,
}

/// A static passthrough rule: publish a fixed expression under `alias`.
#[derive(Debug, Clone)]
pub struct StaticRule {
    pub alias: String,
    pub rule: String,
}

/// Identity of one registered handler.
#[derive(Debug, Clone)]
pub struct HandlerId {
    pub handler_id: String,
}

/// How a service's raw reply is reshaped before it reaches the caller.
/// `NoRule` passes the reply through untouched.
#[derive(Debug, Clone)]
pub enum Handler {
    NoRule,
    JqRule(JqRule),
    StaticRule(StaticRule),
}

/// A handler together with its identity.
#[derive(Debug, Clone)]
pub struct ServiceHandler {
    pub handler_id: HandlerId,
    pub handler_type: Handler,
}

impl Handler {
    /// The label a handler presents: its alias, or "none" when no rule is set.
    pub fn display_name(&self) -> (r: String)
        ensures
            r@ == self.display_name_spec(),
    {
        match self {
            Handler::NoRule => String::from_str("none"),
            Handler::JqRule(jq_rule) => jq_rule.alias.clone(),
            Handler::StaticRule(static_rule) => static_rule.alias.clone(),
        }
    }

    pub open spec fn display_name_spec(&self) -> Seq<char> {
        match self {
            Handler::NoRule => "none"@,
            Handler::JqRule(jq_rule) => jq_rule.alias@,
            Handler::StaticRule(static_rule) => static_rule.alias@,
        }
    }
}

/// Identity of a connected backend service; equality is over the string.
#[derive(Debug, Clone, Hash)]
pub struct ServiceId {
    pub service_id: String,
}

impl ServiceId {
    pub fn new(service_id: String) -> (r: Self)
        ensures
            r.service_id == service_id,
    {
        ServiceId { service_id }
    }
}

impl PartialEq for ServiceId {
    fn eq(&self, other: &Self) -> (r: bool) {
        self.service_id == other.service_id
    }
}

impl Eq for ServiceId {}

impl vstd::std_specs::cmp::PartialEqSpecImpl for ServiceId {
    open spec fn obeys_eq_spec() -> bool {
        true
    }

    open spec fn eq_spec(&self, other: &ServiceId) -> bool {
        self.service_id@ == other.service_id@
    }
}

/// Correlation handle tying a routed reply to its waiter; unique per
/// in-flight request.
#[derive(Debug, Clone, Copy, PartialEq, Eq, Structural, Hash)]
pub struct ServiceRequestId {
    pub request_id: u64,
}

impl ServiceRequestId {
    pub fn new(request_id: u64) -> (r: Self)
        ensures
            r.request_id == request_id,
    {
        ServiceRequestId { request_id }
    }
}

impl ServiceId {
    /// A copy of this identity, field for field.
    pub fn duplicate(&self) -> (r: Self)
        ensures
            r == *self,
    {
        ServiceId { service_id: self.service_id.clone() }
    }
}

/// Context of the caller whose request is being routed.
#[derive(Debug, Clone)]
pub struct CallContext {
    pub call_id: u64,
    pub app_id: String,
}

/// A normalized inbound call: the unit of work flowing through the gateway.
#[derive(Debug)]
pub struct RpcRequest {
    pub method: String,
    pub params: serde_json::Value,
    pub ctx: CallContext,
}

/// Every way a routed request, a registration or a broker construction can
/// fail. Per-request faults reach the caller through its reply channel in the
/// same framing as a success.
#[derive(Debug, Clone, Copy, PartialEq, Eq, Structural)]
pub enum RoutingError {
    MailboxClosed,
    MailboxFull,
    NoRouteForMethod,
    DuplicateRegistration,
    TransportDisconnected,
    ChallengeTimeout,
    NoProviderRegistered,
    AmbiguousProvider,
    MalformedMessage,
    ConfigurationMissing,
}

} // verus!
