//! Registration of provider-facing RPC methods: which handler kind a
//! method's declared relations call for, the method table itself (a name
//! registers once), and the decoding of a provider's answer out of raw
//! JSON-RPC parameters.

use vstd::prelude::*;

use crate::ext::{json_is_null, json_null};
use crate::platform::{add_app_event_listener, removed_app_listener, PlatformState};
use crate::provider::{
    ListenRequest, ListenerResponse, ErrorObject, ProviderResponse, ProviderResponsePayload,
    ProviderResponsePayloadType,
};
use crate::types::CallContext;

verus! {

/// A handler-level failure, as the RPC layer reports it to the caller.
#[derive(Debug, Clone)]
pub struct RpcCallError {
    pub message: String,
}

/// What a method's entry in the open-RPC document declares about its place
/// in provider routing.
#[derive(Debug, Clone, Default)]
pub struct ProviderRelationSet {
    pub event: bool,
    pub provided_by: Option<String>,
    pub capability: Option<String>,
    pub provides_to: Option<String>,
    pub error_for: Option<String>,
    pub allow_focus_for: Option<String>,
    pub response_for: Option<String>,
}

impl ProviderRelationSet {
    /// A relation set declaring nothing.
    pub fn new() -> (r: Self)
        ensures
            !r.event,
            r.provided_by is None,
            r.capability is None,
            r.provides_to is None,
            r.error_for is None,
            r.allow_focus_for is None,
            r.response_for is None,
    {
        ProviderRelationSet {
            event: false,
            provided_by: None,
            capability: None,
            provides_to: None,
            error_for: None,
            allow_focus_for: None,
            response_for: None,
        }
    }
}

/// The handler kinds a provider-facing method can register as.
#[derive(Debug, Clone, Copy, PartialEq, Eq, Structural)]
pub enum MethodType {
    AppEventListener,
    Provider,
    AppEventEmitter,
    Error,
    ProviderInvoker,
    Focus,
    Response,
}

/// Which handler kind a relation set calls for, if any: event methods by who
/// provides them, plain methods by the role they declare.
pub open spec fn method_type_for_spec(r: ProviderRelationSet) -> Option<MethodType> {
    if r.event {
        if r.provided_by is Some {
            Some(MethodType::AppEventListener)
        } else if r.capability is Some {
            Some(MethodType::Provider)
        } else if r.provides_to is Some {
            Some(MethodType::AppEventEmitter)
        } else {
            None
        }
    } else if r.error_for is Some {
        Some(MethodType::Error)
    } else if r.provided_by is Some {
        Some(MethodType::ProviderInvoker)
    } else if r.allow_focus_for is Some {
        Some(MethodType::Focus)
    } else if r.response_for is Some {
        Some(MethodType::Response)
    } else {
        None
    }
}

pub fn method_type_for(r: &ProviderRelationSet) -> (t: Option<MethodType>)
    ensures
        t == method_type_for_spec(*r),
{
    if r.event {
        if r.provided_by.is_some() {
            Some(MethodType::AppEventListener)
        } else if r.capability.is_some() {
            Some(MethodType::Provider)
        } else if r.provides_to.is_some() {
            Some(MethodType::AppEventEmitter)
        } else {
            None
        }
    } else if r.error_for.is_some() {
        Some(MethodType::Error)
    } else if r.provided_by.is_some() {
        Some(MethodType::ProviderInvoker)
    } else if r.allow_focus_for.is_some() {
        Some(MethodType::Focus)
    } else if r.response_for.is_some() {
        Some(MethodType::Response)
    } else {
        None
    }
}

/// The table of RPC methods already registered: a method name registers at
/// most once.
pub struct MethodRegistry {
    methods: vstd::hash_map::StringHashMap<MethodType>,
}

impl MethodRegistry {
    /// Method name to the handler kind it registered as.
    pub closed spec fn methods_map(&self) -> Map<Seq<char>, MethodType> {
        self.methods@
    }

    pub fn new() -> (r: Self)
        ensures
            r.methods_map() == Map::<Seq<char>, MethodType>::empty(),
    {
        MethodRegistry { methods: vstd::hash_map::StringHashMap::new() }
    }

    pub fn contains(&self, method_name: &str) -> (r: bool)
        ensures
            r == self.methods_map().dom().contains(method_name@),
    {
        self.methods.contains_key(method_name)
    }

    pub fn len(&self) -> (r: usize)
        ensures
            r == self.methods_map().len(),
    {
        self.methods.len()
    }
}

/// How registering a run of (method, relations) rows folds over the method
/// table: the table afterwards, and how many rows registered.
pub open spec fn register_methods_fold(
    m: Map<Seq<char>, MethodType>,
    rs: Seq<(String, ProviderRelationSet)>,
) -> (Map<Seq<char>, MethodType>, nat)
    decreases rs.len(),
{
    if rs.len() == 0 {
        (m, 0)
    } else {
        match method_type_for_spec(rs[0].1) {
            Some(t) => if m.dom().contains(rs[0].0@) {
                register_methods_fold(m, rs.drop_first())
            } else {
                let rec = register_methods_fold(m.insert(rs[0].0@, t), rs.drop_first());
                (rec.0, rec.1 + 1)
            },
            None => register_methods_fold(m, rs.drop_first()),
        }
    }
}

/// Registers provider-facing RPC methods against the shared method table.
pub struct ProviderRegistrar;

impl ProviderRegistrar {
    /// Registers one method under one handler kind; a name already in the
    /// table is refused, mirroring the registry's refusal of a duplicate
    /// method registration.
    pub fn register_method(
        method_name: &str,
        method_type: MethodType,
        registry: &mut MethodRegistry,
    ) -> (r: bool)
        ensures
            old(registry).methods_map().dom().contains(method_name@) ==> {
                &&& !r
                &&& final(registry).methods_map() == old(registry).methods_map()
            },
            !old(registry).methods_map().dom().contains(method_name@) ==> {
                &&& r
                &&& final(registry).methods_map() == old(registry).methods_map().insert(
                    method_name@,
                    method_type,
                )
            },
    {
        if registry.methods.contains_key(method_name) {
            false
        } else {
            registry.methods.insert(method_name.to_owned(), method_type);
            true
        }
    }

    /// Walks the declared provider relations and registers every method whose
    /// relations call for a handler, skipping names already taken; reports
    /// how many registered.
    pub fn register_methods(platform_state: &PlatformState, methods: &mut MethodRegistry) -> (r: u32)
        requires
            platform_state.provider_relations@.len() <= u32::MAX,
        ensures
            final(methods).methods_map() == register_methods_fold(
                old(methods).methods_map(),
                platform_state.provider_relations@,
            ).0,
            r as nat == register_methods_fold(
                old(methods).methods_map(),
                platform_state.provider_relations@,
            ).1,
    {
        let ghost m0 = methods.methods_map();
        let ghost rs = platform_state.provider_relations@;
        let mut count: u32 = 0;
        let mut i: usize = 0;
        proof {
            assert(rs.skip(0) =~= rs);
        }
        while i < platform_state.provider_relations.len()
            invariant
                i <= rs.len(),
                rs.len() <= u32::MAX,
                platform_state.provider_relations@ == rs,
                count <= i,
                register_methods_fold(m0, rs).0 == register_methods_fold(
                    methods.methods_map(),
                    rs.skip(i as int),
                ).0,
                register_methods_fold(m0, rs).1 == count + register_methods_fold(
                    methods.methods_map(),
                    rs.skip(i as int),
                ).1,
            decreases rs.len() - i,
        {
            proof {
                assert(rs.skip(i as int)[0] == rs[i as int]);
                assert(rs.skip(i as int).drop_first() =~= rs.skip(i + 1 as int));
            }
            let entry = &platform_state.provider_relations[i];
            match method_type_for(&entry.1) {
                Some(method_type) => {
                    if Self::register_method(entry.0.as_str(), method_type, methods) {
                        count = count + 1;
                    }
                },
                None => {},
            }
            i = i + 1;
        }
        proof {
            assert(rs.skip(rs.len() as int) =~= Seq::<(String, ProviderRelationSet)>::empty());
        }
        count
    }
}

/// The correlation id the second element of a params document carries, when
/// the document parses as an array whose second element is an object with a
/// string `correlationId`: a function of the text alone.
pub uninterp spec fn parsed_cid_of(params: Seq<char>) -> Option<Seq<char>>;

/// Whether the parsed second element carries a `result` member.
pub uninterp spec fn parsed_has_result_of(params: Seq<char>) -> bool;

/// The integer `error.code` the parsed second element carries, if any.
pub uninterp spec fn parsed_error_code_of(params: Seq<char>) -> Option<i64>;

/// The `error.message` text the parsed second element carries, if any.
pub uninterp spec fn parsed_error_message_of(params: Seq<char>) -> Option<Seq<char>>;

/// The plain values a provider's answer carries once decoded out of the raw
/// parameters: its correlation id, and whichever of a result value or an
/// error object came with it.
pub struct ProviderParamFields {
    pub correlation_id: String,
    pub result: Option<serde_json::Value>,
    pub error_code: Option<i64>,
    pub error_message: Option<String>,
}

impl ProviderRegistrar {
    /// Builds the provider's answer from decoded parameter fields: each
    /// payload kind demands its fields (a response value, or an error's code
    /// and message), and anything short of that is no answer.
    pub fn get_provider_response_from_fields(
        payload_type: ProviderResponsePayloadType,
        fields: Option<ProviderParamFields>,
    ) -> (r: Option<ProviderResponse>)
        ensures
            fields is None ==> r is None,
            payload_type == ProviderResponsePayloadType::ChallengeError ==> r is None,
            fields matches Some(f) ==> (payload_type
                == ProviderResponsePayloadType::ChallengeResponse ==> (match f.result {
                Some(v) => r == Some(ProviderResponse {
                    correlation_id: f.correlation_id,
                    result: ProviderResponsePayload::ChallengeResponse(v),
                }),
                None => r is None,
            })),
            fields matches Some(f) ==> (payload_type
                == ProviderResponsePayloadType::PinChallengeResponse ==> (match f.result {
                Some(v) => r == Some(ProviderResponse {
                    correlation_id: f.correlation_id,
                    result: ProviderResponsePayload::PinChallengeResponse(v),
                }),
                None => r is None,
            })),
            fields matches Some(f) ==> (payload_type == ProviderResponsePayloadType::GenericError
                ==> (match (f.error_code, f.error_message) {
                (Some(code), Some(message)) => r == Some(ProviderResponse {
                    correlation_id: f.correlation_id,
                    result: ProviderResponsePayload::GenericError(ErrorObject { code, message }),
                }),
                _ => r is None,
            })),
            fields matches Some(f) ==> (payload_type == ProviderResponsePayloadType::GenericResponse
                ==> (r matches Some(pr) && pr.correlation_id == f.correlation_id
                    && pr.result is GenericResponse && (match f.result {
                    Some(v) => pr.result == ProviderResponsePayload::GenericResponse(v),
                    None => json_is_null(pr.result->GenericResponse_0),
                }))),
    {
        let f = match fields {
            Some(f) => f,
            None => {
                return None;
            },
        };
        match payload_type {
            ProviderResponsePayloadType::ChallengeResponse => match f.result {
                Some(v) => Some(ProviderResponse {
                    correlation_id: f.correlation_id,
                    result: ProviderResponsePayload::ChallengeResponse(v),
                }),
                None => None,
            },
            ProviderResponsePayloadType::PinChallengeResponse => match f.result {
                Some(v) => Some(ProviderResponse {
                    correlation_id: f.correlation_id,
                    result: ProviderResponsePayload::PinChallengeResponse(v),
                }),
                None => None,
            },
            ProviderResponsePayloadType::GenericError => match (f.error_code, f.error_message) {
                (Some(code), Some(message)) => Some(ProviderResponse {
                    correlation_id: f.correlation_id,
                    result: ProviderResponsePayload::GenericError(ErrorObject { code, message }),
                }),
                _ => None,
            },
            ProviderResponsePayloadType::GenericResponse => {
                let value = match f.result {
                    Some(v) => v,
                    None => json_null(),
                };
                Some(ProviderResponse {
                    correlation_id: f.correlation_id,
                    result: ProviderResponsePayload::GenericResponse(value),
                })
            },
            ProviderResponsePayloadType::ChallengeError => None,
        }
    }

    /// Relies on serde_json's parser to decode the raw JSON-RPC parameter
    /// array of a provider's answer: the first element is the call context
    /// (not read here); the second must be an object with a string
    /// `correlationId`, and may carry a `result` and an `error` object with
    /// `code` and `message`. What comes back is a function of the text
    /// alone, named by the `parsed_*` spec functions above.
    #[verifier::external_body]
    fn parse_provider_params(params_json: &str) -> (r: Option<ProviderParamFields>)
        ensures
            r is Some <==> parsed_cid_of(params_json@) is Some,
            r matches Some(f) ==> {
                &&& parsed_cid_of(params_json@) == Some(f.correlation_id@)
                &&& parsed_has_result_of(params_json@) == (f.result is Some)
                &&& parsed_error_code_of(params_json@) == f.error_code
                &&& parsed_error_message_of(params_json@) == (match f.error_message {
                    Some(m) => Some(m@),
                    None => None,
                })
            },
    {
        let v: serde_json::Value = match serde_json::from_str(params_json) { Ok(v) => v, Err(_) => return None };
        let p = match v.get(1) { Some(p) => p, None => return None };
        let cid = match p.get("correlationId").and_then(|c| c.as_str()) { Some(s) => s.to_owned(), None => return None };
        let err = p.get("error");
        Some(ProviderParamFields {
            correlation_id: cid,
            result: p.get("result").cloned(),
            error_code: err.and_then(|e| e.get("code")).and_then(|c| c.as_i64()),
            error_message: err.and_then(|e| e.get("message")).and_then(|m| m.as_str()).map(|s| s.to_owned()),
        })
    }

    /// Decodes a provider's answer out of the raw JSON-RPC parameter string
    /// and builds the correlated response. The decoded fields pass through
    /// `get_provider_response_from_fields`, which pins the construction down.
    pub fn get_provider_response(
        payload_type: ProviderResponsePayloadType,
        params_json: &str,
    ) -> (r: Option<ProviderResponse>)
        ensures
            parsed_cid_of(params_json@) is None ==> r is None,
            payload_type == ProviderResponsePayloadType::ChallengeError ==> r is None,
            parsed_cid_of(params_json@) matches Some(cid) ==> match payload_type {
                ProviderResponsePayloadType::ChallengeResponse => if parsed_has_result_of(
                    params_json@,
                ) {
                    r matches Some(pr) && pr.correlation_id@ == cid
                        && pr.result is ChallengeResponse
                } else {
                    r is None
                },
                ProviderResponsePayloadType::PinChallengeResponse => if parsed_has_result_of(
                    params_json@,
                ) {
                    r matches Some(pr) && pr.correlation_id@ == cid
                        && pr.result is PinChallengeResponse
                } else {
                    r is None
                },
                ProviderResponsePayloadType::GenericError => match (
                    parsed_error_code_of(params_json@),
                    parsed_error_message_of(params_json@),
                ) {
                    (Some(code), Some(message)) => r matches Some(pr) && pr.correlation_id@ == cid
                        && (pr.result matches ProviderResponsePayload::GenericError(e)
                        && e.code == code && e.message@ == message),
                    _ => r is None,
                },
                ProviderResponsePayloadType::GenericResponse => r matches Some(pr)
                    && pr.correlation_id@ == cid && pr.result is GenericResponse
                    && (!parsed_has_result_of(params_json@) ==> json_is_null(
                    pr.result->GenericResponse_0,
                )),
                ProviderResponsePayloadType::ChallengeError => r is None,
            },
    {
        let fields = Self::parse_provider_params(params_json);
        Self::get_provider_response_from_fields(payload_type, fields)
    }

    /// Handles a provider's error report: the decoded answer resolves its
    /// pending challenge; parameters that decode to no answer are refused.
    pub fn callback_error(context: &mut RpcModuleContext, params_json: &str) -> (r: Result<
        Option<()>,
        RpcCallError,
    >)
        requires
            old(context).platform_state.provider_broker.wf(),
        ensures
            final(context).platform_state.provider_broker.wf(),
            final(context).method == old(context).method,
            final(context).platform_state.provider_broker.listeners_seq() == old(
                context,
            ).platform_state.provider_broker.listeners_seq(),
            r is Ok <==> (parsed_cid_of(params_json@) is Some && parsed_error_code_of(params_json@)
                is Some && parsed_error_message_of(params_json@) is Some),
            r is Ok ==> r == Ok::<Option<()>, RpcCallError>(None),
            r is Ok ==> ({
                let cid = parsed_cid_of(params_json@)->Some_0;
                if old(context).platform_state.provider_broker.challenges().dom().contains(cid) {
                    final(context).platform_state.provider_broker.challenges() == old(
                        context,
                    ).platform_state.provider_broker.challenges().remove(cid)
                } else {
                    final(context).platform_state.provider_broker.challenges() == old(
                        context,
                    ).platform_state.provider_broker.challenges()
                }
            }),
            r matches Err(e) ==> e.message@ == "Missing provider attributes"@
                && final(context).platform_state.provider_broker.challenges() == old(
                context,
            ).platform_state.provider_broker.challenges(),
    {
        match Self::get_provider_response(ProviderResponsePayloadType::GenericError, params_json) {
            Some(provider_response) => {
                let _ = context.platform_state.provider_broker.provider_response(provider_response);
                Ok(None)
            },
            None => Err(RpcCallError { message: String::from_str("Missing provider attributes") }),
        }
    }

    /// Handles a provider's result report, as `callback_error` does for
    /// errors.
    pub fn callback_response(context: &mut RpcModuleContext, params_json: &str) -> (r: Result<
        Option<()>,
        RpcCallError,
    >)
        requires
            old(context).platform_state.provider_broker.wf(),
        ensures
            final(context).platform_state.provider_broker.wf(),
            final(context).method == old(context).method,
            final(context).platform_state.provider_broker.listeners_seq() == old(
                context,
            ).platform_state.provider_broker.listeners_seq(),
            r is Ok <==> parsed_cid_of(params_json@) is Some,
            r is Ok ==> r == Ok::<Option<()>, RpcCallError>(None),
            r is Ok ==> ({
                let cid = parsed_cid_of(params_json@)->Some_0;
                if old(context).platform_state.provider_broker.challenges().dom().contains(cid) {
                    final(context).platform_state.provider_broker.challenges() == old(
                        context,
                    ).platform_state.provider_broker.challenges().remove(cid)
                } else {
                    final(context).platform_state.provider_broker.challenges() == old(
                        context,
                    ).platform_state.provider_broker.challenges()
                }
            }),
            r matches Err(e) ==> e.message@ == "Couldn't resolve response payload type"@
                && final(context).platform_state.provider_broker.challenges() == old(
                context,
            ).platform_state.provider_broker.challenges(),
    {
        match Self::get_provider_response(ProviderResponsePayloadType::GenericResponse, params_json) {
            Some(provider_response) => {
                let _ = context.platform_state.provider_broker.provider_response(provider_response);
                Ok(None)
            },
            None => Err(RpcCallError {
                message: String::from_str("Couldn't resolve response payload type"),
            }),
        }
    }

    /// Subscribes or unsubscribes the calling app to this method's event and
    /// confirms the toggle.
    pub fn callback_app_event_listener(
        context: &mut RpcModuleContext,
        call_context: CallContext,
        request: ListenRequest,
    ) -> (r: Result<ListenerResponse, RpcCallError>)
        ensures
            final(context).method == old(context).method,
            r matches Ok(resp) && resp.listening == request.listen && resp.event@ == old(
                context,
            ).method@,
            final(context).platform_state.provider_broker == old(context).platform_state.provider_broker,
            final(context).platform_state.provider_relations == old(context).platform_state.provider_relations,
            final(context).platform_state.services_gateway_sender == old(context).platform_state.services_gateway_sender,
            request.listen ==> {
                &&& final(context).platform_state.app_event_listeners@.len() == old(
                    context,
                ).platform_state.app_event_listeners@.len() + 1
                &&& final(context).platform_state.app_event_listeners@.drop_last() == old(
                    context,
                ).platform_state.app_event_listeners@
                &&& final(context).platform_state.app_event_listeners@.last().event@ == old(
                    context,
                ).method@
                &&& final(context).platform_state.app_event_listeners@.last().app_id@
                    == call_context.app_id@
                &&& final(context).platform_state.app_event_listeners@.last().call_id
                    == call_context.call_id
            },
            !request.listen ==> final(context).platform_state.app_event_listeners@
                == removed_app_listener(
                old(context).platform_state.app_event_listeners@,
                old(context).method@,
                call_context.app_id@,
            ),
    {
        let listen = request.listen;
        add_app_event_listener(
            &mut context.platform_state,
            context.method.clone(),
            &call_context,
            &request,
        );
        Ok(ListenerResponse { listening: listen, event: context.method.clone() })
    }

    /// Capability-declared provider registration is not wired through this
    /// table-driven registrar; the caller is told what is missing.
    pub fn callback_register_provider(context: &RpcModuleContext) -> (r: Result<
        ListenerResponse,
        RpcCallError,
    >)
        ensures
            r matches Err(e) && e.message@ == "Missing provides attribute"@,
    {
        let _ = context;
        Err(RpcCallError { message: String::from_str("Missing provides attribute") })
    }

    /// Event emission for `provides_to` relations is not wired through this
    /// registrar.
    pub fn callback_app_event_emitter(context: &RpcModuleContext) -> (r: Result<
        Option<()>,
        RpcCallError,
    >)
        ensures
            r matches Err(e) && e.message@ == "Unexpected schema configuration"@,
    {
        let _ = context;
        Err(RpcCallError { message: String::from_str("Unexpected schema configuration") })
    }

    /// Invocation of `provided_by` methods is not wired through this
    /// registrar.
    pub fn callback_provider_invoker(context: &RpcModuleContext) -> (r: Result<
        serde_json::Value,
        RpcCallError,
    >)
        ensures
            r matches Err(e) && e.message@ == "Unexpected schema configuration"@,
    {
        let _ = context;
        Err(RpcCallError { message: String::from_str("Unexpected schema configuration") })
    }

    /// Focus routing by declared relations is not wired through this
    /// registrar.
    pub fn callback_focus(context: &RpcModuleContext) -> (r: Result<Option<()>, RpcCallError>)
        ensures
            r matches Err(e) && e.message@ == "Missing provides attribute"@,
    {
        let _ = context;
        Err(RpcCallError { message: String::from_str("Missing provides attribute") })
    }
}

/// What one registered method's handler closes over: the shared state, the
/// method's name and its declared relations.
pub struct RpcModuleContext {
    pub platform_state: PlatformState,
    pub method: String,
    pub provider_relation_set: ProviderRelationSet,
}

impl RpcModuleContext {
    pub fn new(
        platform_state: PlatformState,
        method: String,
        provider_relation_set: ProviderRelationSet,
    ) -> (r: Self)
        ensures
            r.platform_state == platform_state,
            r.method == method,
            r.provider_relation_set == provider_relation_set,
    {
        RpcModuleContext { platform_state, method, provider_relation_set }
    }
}

} // verus!
