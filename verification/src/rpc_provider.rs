//! A provider handler parameterized by its capability: listener toggling,
//! response and error forwarding, and focus routing, one generic type in
//! place of a stamped-out type per capability, driven by a descriptor table
//! built from the provider map.

use vstd::prelude::*;

use crate::platform::PlatformState;
use crate::provider::{
    removed_listener, FocusDelivery, FocusRequest, ListenRequest, ListenerResponse,
    ProviderResponse, ProviderResponsePayload, ProviderResponsePayloadType,
};
use crate::types::RoutingError;
use crate::registrar::RpcCallError;
use crate::types::CallContext;

verus! {

/// The capability whose challenges the acknowledge-challenge provider
/// answers.
pub fn ack_challenge_capability() -> (r: String)
    ensures
        r@ == "xrn:firebolt:capability:usergrant:acknowledgechallenge"@,
{
    String::from_str("xrn:firebolt:capability:usergrant:acknowledgechallenge")
}

/// A provider's answer as it arrives from the UI side: the challenge's
/// correlation id and the raw result.
#[derive(Debug)]
pub struct ExternalProviderResponse {
    pub correlation_id: String,
    pub result: serde_json::Value,
}

/// One capability's provider-facing RPC surface.
pub struct RPCProvider {
    pub platform_state: PlatformState,
    pub capability: String,
    pub event: String,
}

impl RPCProvider {
    /// The capability this provider serves.
    pub open spec fn capability_spec(&self) -> Seq<char> {
        self.capability@
    }

    /// The event its listeners receive.
    pub open spec fn event_spec(&self) -> Seq<char> {
        self.event@
    }

    pub fn new(platform_state: PlatformState, capability: String, event: String) -> (r: RPCProvider)
        ensures
            r.platform_state == platform_state,
            r.capability_spec() == capability@,
            r.event_spec() == event@,
    {
        RPCProvider { platform_state, capability, event }
    }

    /// The payload this provider's responses carry: challenge responses for
    /// the acknowledge-challenge capability, nothing for any other.
    pub fn get_response_payload(&self, result: serde_json::Value) -> (r: Option<ProviderResponsePayload>)
        ensures
            self.capability_spec() == "xrn:firebolt:capability:usergrant:acknowledgechallenge"@
                ==> r == Some(ProviderResponsePayload::ChallengeResponse(result)),
            self.capability_spec() != "xrn:firebolt:capability:usergrant:acknowledgechallenge"@
                ==> r is None,
    {
        if self.capability == ack_challenge_capability() {
            Some(ProviderResponsePayload::ChallengeResponse(result))
        } else {
            None
        }
    }

    /// The payload this provider's error reports carry, by the same rule.
    pub fn get_error_payload(&self, result: serde_json::Value) -> (r: Option<ProviderResponsePayload>)
        ensures
            self.capability_spec() == "xrn:firebolt:capability:usergrant:acknowledgechallenge"@
                ==> r == Some(ProviderResponsePayload::ChallengeError(result)),
            self.capability_spec() != "xrn:firebolt:capability:usergrant:acknowledgechallenge"@
                ==> r is None,
    {
        if self.capability == ack_challenge_capability() {
            Some(ProviderResponsePayload::ChallengeError(result))
        } else {
            None
        }
    }

    /// Starts or stops the calling app's listener for this provider's
    /// capability and confirms the toggle with the event name.
    pub fn on_request(&mut self, ctx: CallContext, request: ListenRequest) -> (r: Result<
        ListenerResponse,
        RpcCallError,
    >)
        requires
            old(self).platform_state.provider_broker.wf(),
        ensures
            final(self).platform_state.provider_broker.wf(),
            final(self).capability_spec() == old(self).capability_spec(),
            final(self).event_spec() == old(self).event_spec(),
            final(self).platform_state.provider_broker.challenges() == old(self).platform_state.provider_broker.challenges(),
            r matches Ok(resp) && resp.listening == request.listen && resp.event@ == old(self).event_spec(),
            request.listen ==> final(self).platform_state.provider_broker.listeners_map().dom().contains(
                (old(self).capability_spec(), ctx.app_id@),
            ),
            !request.listen ==> final(self).platform_state.provider_broker.listeners_map() == old(self).platform_state.provider_broker.listeners_map().remove(
                (old(self).capability_spec(), ctx.app_id@),
            ),
            !request.listen ==> final(self).platform_state.provider_broker.listeners_seq()
                == removed_listener(
                old(self).platform_state.provider_broker.listeners_seq(),
                old(self).capability_spec(),
                ctx.app_id@,
            ),
            request.listen ==> {
                &&& final(self).platform_state.provider_broker.listeners_seq().len()
                    == removed_listener(
                    old(self).platform_state.provider_broker.listeners_seq(),
                    old(self).capability_spec(),
                    ctx.app_id@,
                ).len() + 1
                &&& final(self).platform_state.provider_broker.listeners_seq().drop_last()
                    == removed_listener(
                    old(self).platform_state.provider_broker.listeners_seq(),
                    old(self).capability_spec(),
                    ctx.app_id@,
                )
                &&& final(self).platform_state.provider_broker.listeners_seq().last().capability@
                    == old(self).capability_spec()
                &&& final(self).platform_state.provider_broker.listeners_seq().last().app_id@
                    == ctx.app_id@
                &&& final(self).platform_state.provider_broker.listeners_seq().last().event@
                    == old(self).event_spec()
            },
    {
        let method = match self.platform_state.provider_broker.get_method(&self.capability) {
            Some(m) => m,
            None => String::new(),
        };
        let response = self.platform_state.provider_broker.register_or_unregister_listener(
            self.capability.clone(),
            method,
            self.event.clone(),
            &ctx,
            &request,
        );
        let _ = response;
        Ok(ListenerResponse { listening: request.listen, event: self.event.clone() })
    }

    /// Forwards a provider's answer to the pending challenge it correlates
    /// with; a capability with no response payload defined is refused.
    pub fn response(&mut self, ctx: CallContext, resp: ExternalProviderResponse) -> (r: Result<
        Option<()>,
        RpcCallError,
    >)
        requires
            old(self).platform_state.provider_broker.wf(),
        ensures
            final(self).platform_state.provider_broker.wf(),
            final(self).capability_spec() == old(self).capability_spec(),
            old(self).capability_spec() == "xrn:firebolt:capability:usergrant:acknowledgechallenge"@
                ==> {
                &&& r == Ok::<Option<()>, RpcCallError>(None)
                &&& old(self).platform_state.provider_broker.challenges().dom().contains(
                    resp.correlation_id@,
                ) ==> final(self).platform_state.provider_broker.challenges() == old(self).platform_state.provider_broker.challenges().remove(resp.correlation_id@)
                &&& !old(self).platform_state.provider_broker.challenges().dom().contains(
                    resp.correlation_id@,
                ) ==> final(self).platform_state.provider_broker.challenges() == old(self).platform_state.provider_broker.challenges()
            },
            old(self).capability_spec() != "xrn:firebolt:capability:usergrant:acknowledgechallenge"@
                ==> (r matches Err(e) && e.message@ == "No response payload defined"@ && final(self).platform_state.provider_broker.challenges() == old(self).platform_state.provider_broker.challenges()),
    {
        let _ = ctx;
        match self.get_response_payload(resp.result) {
            Some(payload) => {
                let _ = self.platform_state.provider_broker.provider_response(ProviderResponse {
                    correlation_id: resp.correlation_id,
                    result: payload,
                });
                Ok(None)
            },
            None => Err(RpcCallError { message: String::from_str("No response payload defined") }),
        }
    }

    /// Forwards a provider's error report, as `response` does for answers.
    pub fn error(&mut self, ctx: CallContext, resp: ExternalProviderResponse) -> (r: Result<
        Option<()>,
        RpcCallError,
    >)
        requires
            old(self).platform_state.provider_broker.wf(),
        ensures
            final(self).platform_state.provider_broker.wf(),
            final(self).capability_spec() == old(self).capability_spec(),
            old(self).capability_spec() == "xrn:firebolt:capability:usergrant:acknowledgechallenge"@
                ==> {
                &&& r == Ok::<Option<()>, RpcCallError>(None)
                &&& old(self).platform_state.provider_broker.challenges().dom().contains(
                    resp.correlation_id@,
                ) ==> final(self).platform_state.provider_broker.challenges() == old(self).platform_state.provider_broker.challenges().remove(resp.correlation_id@)
                &&& !old(self).platform_state.provider_broker.challenges().dom().contains(
                    resp.correlation_id@,
                ) ==> final(self).platform_state.provider_broker.challenges() == old(self).platform_state.provider_broker.challenges()
            },
            old(self).capability_spec() != "xrn:firebolt:capability:usergrant:acknowledgechallenge"@
                ==> (r matches Err(e) && e.message@ == "No error response payload defined"@ && final(self).platform_state.provider_broker.challenges() == old(self).platform_state.provider_broker.challenges()),
    {
        let _ = ctx;
        match self.get_error_payload(resp.result) {
            Some(error_payload) => {
                let _ = self.platform_state.provider_broker.provider_response(ProviderResponse {
                    correlation_id: resp.correlation_id,
                    result: error_payload,
                });
                Ok(None)
            },
            None => Err(RpcCallError {
                message: String::from_str("No error response payload defined"),
            }),
        }
    }

    /// Routes a focus directive to the app listening for this provider's
    /// capability: the delivery target comes back for the transport to act
    /// on, and zero or several listeners is the corresponding routing error.
    pub fn focus(&self, ctx: CallContext, request: FocusRequest) -> (r: Result<
        FocusDelivery,
        RoutingError,
    >)
        requires
            self.platform_state.provider_broker.wf(),
        ensures
            crate::provider::cap_count(
                self.platform_state.provider_broker.listeners_seq(),
                self.capability_spec(),
            ) == 0 ==> r == Err::<FocusDelivery, RoutingError>(RoutingError::NoProviderRegistered),
            crate::provider::cap_count(
                self.platform_state.provider_broker.listeners_seq(),
                self.capability_spec(),
            ) >= 2 ==> r == Err::<FocusDelivery, RoutingError>(RoutingError::AmbiguousProvider),
            crate::provider::cap_count(
                self.platform_state.provider_broker.listeners_seq(),
                self.capability_spec(),
            ) == 1 ==> (r matches Ok(d) && (exists|i: int|
                0 <= i < self.platform_state.provider_broker.listeners_seq().len()
                    && (#[trigger] self.platform_state.provider_broker.listeners_seq()[i]).capability@
                    == self.capability_spec()
                    && d.app_id@ == self.platform_state.provider_broker.listeners_seq()[i].app_id@
                    && d.event@ == self.platform_state.provider_broker.listeners_seq()[i].event@)),
    {
        self.platform_state.provider_broker.focus(&ctx, &self.capability, &request)
    }
}

/// What a method's provider attributes declare for the descriptor table.
#[derive(Debug, Clone)]
pub struct ProviderAttributes {
    pub name: String,
    pub event: String,
}

/// One method's entry in the provider map.
#[derive(Debug, Clone)]
pub struct ProviderSet {
    pub attributes: Option<ProviderAttributes>,
    pub provides: Option<String>,
}

/// One generated provider handler: its name, its event, and which payload
/// shapes its responses and errors carry.
#[derive(Debug, Clone)]
pub struct ProviderDescriptor {
    pub name: String,
    pub event: String,
    pub response_kind: ProviderResponsePayloadType,
    pub error_kind: ProviderResponsePayloadType,
}

/// What one provider-map entry contributes to the descriptor table.
pub open spec fn descriptor_for_spec(entry: (String, ProviderSet)) -> Seq<ProviderDescriptor> {
    match entry.1.attributes {
        Some(attributes) => match entry.1.provides {
            Some(provides) => if provides@
                == "xrn:firebolt:capability:usergrant:acknowledgechallenge"@ {
                seq![
                    ProviderDescriptor {
                        name: attributes.name,
                        event: attributes.event,
                        response_kind: ProviderResponsePayloadType::ChallengeResponse,
                        error_kind: ProviderResponsePayloadType::ChallengeError,
                    },
                ]
            } else if provides@ == "bar"@ {
                seq![
                    ProviderDescriptor {
                        name: attributes.name,
                        event: attributes.event,
                        response_kind: ProviderResponsePayloadType::PinChallengeResponse,
                        error_kind: ProviderResponsePayloadType::ChallengeError,
                    },
                ]
            } else {
                Seq::empty()
            },
            None => Seq::empty(),
        },
        None => Seq::empty(),
    }
}

/// The descriptor table a provider map generates.
pub open spec fn generate_fold(s: Seq<(String, ProviderSet)>) -> Seq<ProviderDescriptor>
    decreases s.len(),
{
    if s.len() == 0 {
        Seq::empty()
    } else {
        generate_fold(s.drop_last()) + descriptor_for_spec(s.last())
    }
}

/// Builds provider handlers per capability from the provider map: one
/// descriptor per method with attributes and a recognized capability,
/// dispatched by lookup instead of a stamped-out type per capability.
pub struct RippleRPCProviderGenerator;

impl RippleRPCProviderGenerator {
    pub fn generate(provider_map: &Vec<(String, ProviderSet)>) -> (r: Vec<ProviderDescriptor>)
        ensures
            r@ == generate_fold(provider_map@),
    {
        let mut out: Vec<ProviderDescriptor> = Vec::new();
        let mut i: usize = 0;
        while i < provider_map.len()
            invariant
                i <= provider_map@.len(),
                out@ == generate_fold(provider_map@.subrange(0, i as int)),
            decreases provider_map@.len() - i,
        {
            let ghost prefix = provider_map@.subrange(0, i as int);
            proof {
                assert(provider_map@.subrange(0, i + 1 as int).drop_last() =~= prefix);
                assert(provider_map@.subrange(0, i + 1 as int).last() == provider_map@[i as int]);
            }
            let entry = &provider_map[i];
            match &entry.1.attributes {
                Some(attributes) => match &entry.1.provides {
                    Some(provides) => {
                        if *provides == ack_challenge_capability() {
                            out.push(ProviderDescriptor {
                                name: attributes.name.clone(),
                                event: attributes.event.clone(),
                                response_kind: ProviderResponsePayloadType::ChallengeResponse,
                                error_kind: ProviderResponsePayloadType::ChallengeError,
                            });
                        } else if *provides == String::from_str("bar") {
                            out.push(ProviderDescriptor {
                                name: attributes.name.clone(),
                                event: attributes.event.clone(),
                                response_kind: ProviderResponsePayloadType::PinChallengeResponse,
                                error_kind: ProviderResponsePayloadType::ChallengeError,
                            });
                        }
                    },
                    None => {},
                },
                None => {},
            }
            proof {
                assert(out@ =~= generate_fold(provider_map@.subrange(0, i + 1 as int)));
            }
            i = i + 1;
        }
        proof {
            assert(provider_map@.subrange(0, provider_map@.len() as int) =~= provider_map@);
        }
        out
    }
}

} // verus!
