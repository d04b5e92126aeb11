use ssda_gateway::client::{client_step, registration_message, reply_message, ClientAction};
use ssda_gateway::messages::{
    APIClientMessages, ServiceCall, ServiceCallErrorResponse, ServiceCallSuccessResponse,
    ServiceRegistration, ServiceRegistrationBuilder, WebsocketServiceResponse,
};
use ssda_gateway::platform::PlatformState;
use ssda_gateway::provider::{FocusRequest, ListenRequest, ProviderResponsePayload, ProviderResponsePayloadType};
use ssda_gateway::registrar::{ProviderParamFields, ProviderRegistrar};
use ssda_gateway::rpc_provider::{
    ack_challenge_capability, ExternalProviderResponse, ProviderAttributes, ProviderDescriptor,
    ProviderSet, RPCProvider, RippleRPCProviderGenerator,
};
use ssda_gateway::types::{CallContext, Handler, JqRule, RoutingError, ServiceId, ServiceRequestId, StaticRule};

#[test]
fn test_handler_display_name() {
    assert_eq!(Handler::NoRule.display_name(), "none");
    let jq = Handler::JqRule(JqRule { alias: "a1".to_string(), rule: ".x".to_string() });
    assert_eq!(jq.display_name(), "a1");
    let st = Handler::StaticRule(StaticRule { alias: "a2".to_string(), rule: "{}".to_string() });
    assert_eq!(st.display_name(), "a2");
}

#[test]
fn test_handler_to_rule() {
    let jq = Handler::JqRule(JqRule { alias: "a1".to_string(), rule: ".x".to_string() });
    let rule = jq.to_rule();
    assert_eq!(rule.alias, "a1");
    assert_eq!(rule.filter, Some(".x".to_string()));
    assert!(rule.endpoint.is_none());

    let none_rule = Handler::NoRule.to_rule();
    assert_eq!(none_rule.alias, "none");
    assert!(none_rule.filter.is_none());
}

#[test]
fn test_service_ids() {
    let a = ServiceId::new("svc".to_string());
    let b = ServiceId::new("svc".to_string());
    let c = ServiceId::new("other".to_string());
    assert!(a == b);
    assert!(a != c);
    assert_eq!(ServiceRequestId::new(3).request_id, 3);
}

#[test]
fn test_registration_builder() {
    let mut builder = ServiceRegistrationBuilder::new(ServiceId::new("svc".to_string()));
    builder.add_handler(Handler::JqRule(JqRule {
        alias: "method.one".to_string(),
        rule: ".result".to_string(),
    }));
    builder.add_handler(Handler::StaticRule(StaticRule {
        alias: "method.two".to_string(),
        rule: "{\"ok\":true}".to_string(),
    }));
    let registration: ServiceRegistration = builder.build();
    assert_eq!(registration.service_id, ServiceId::new("svc".to_string()));
    assert_eq!(registration.firebolt_handlers.len(), 2);
    assert_eq!(registration.firebolt_handlers[0].firebolt_method, "method.one");
    assert_eq!(
        registration.firebolt_handlers[0].jq_rule.as_ref().unwrap().rule,
        ".result"
    );
    // The static rule is carried as a filter rule under its alias.
    assert_eq!(registration.firebolt_handlers[1].firebolt_method, "method.two");
    assert_eq!(
        registration.firebolt_handlers[1].jq_rule.as_ref().unwrap().rule,
        "{\"ok\":true}"
    );

    let replay = registration.get_rule_registrations();
    assert_eq!(replay.len(), 2);
    assert_eq!(replay[0].firebolt_method, "method.one");
}

#[test]
fn test_websocket_service_response_get_id() {
    let ok = WebsocketServiceResponse::Success(ServiceRequestId::new(4), serde_json::Value::Null);
    assert_eq!(ok.get_id(), ServiceRequestId::new(4));
    let err = WebsocketServiceResponse::Error(ServiceRequestId::new(5), "e".to_string());
    assert_eq!(err.get_id(), ServiceRequestId::new(5));
}

#[test]
fn test_client_step_actions() {
    let call = ServiceCall {
        request_id: ServiceRequestId::new(8),
        method: "m".to_string(),
        payload: serde_json::Value::Null,
    };
    match client_step(APIClientMessages::ServiceCall(call)) {
        ClientAction::HandleCall(c) => assert_eq!(c.request_id.request_id, 8),
        _ => panic!("a forwarded call must reach the handler"),
    }
    assert!(matches!(
        client_step(APIClientMessages::Error("nope".to_string())),
        ClientAction::Ignore
    ));
    assert!(matches!(client_step(APIClientMessages::default()), ClientAction::Ignore));

    let reply = reply_message(Err(ServiceCallErrorResponse {
        request_id: ServiceRequestId::new(8),
        error: "failed".to_string(),
    }));
    assert!(matches!(reply, APIClientMessages::ServiceCallErrorResponse(_)));
    let reply = reply_message(Ok(ServiceCallSuccessResponse {
        request_id: ServiceRequestId::new(8),
        response: serde_json::Value::Null,
    }));
    assert!(matches!(reply, APIClientMessages::ServiceCallSuccessResponse(_)));

    let registration = ServiceRegistration::new(ServiceId::new("svc".to_string()), Vec::new());
    assert!(matches!(
        registration_message(&registration),
        APIClientMessages::Register(_)
    ));
}

#[test]
fn test_provider_response_from_fields() {
    // A challenge response needs its result value.
    let fields = ProviderParamFields {
        correlation_id: "c".to_string(),
        result: Some(serde_json::Value::Bool(true)),
        error_code: None,
        error_message: None,
    };
    let pr = ProviderRegistrar::get_provider_response_from_fields(
        ProviderResponsePayloadType::ChallengeResponse,
        Some(fields),
    )
    .unwrap();
    assert_eq!(pr.correlation_id, "c");
    assert!(matches!(pr.result, ProviderResponsePayload::ChallengeResponse(_)));

    // A generic error without its message is no answer.
    let incomplete = ProviderParamFields {
        correlation_id: "c".to_string(),
        result: None,
        error_code: Some(-1),
        error_message: None,
    };
    assert!(ProviderRegistrar::get_provider_response_from_fields(
        ProviderResponsePayloadType::GenericError,
        Some(incomplete),
    )
    .is_none());

    // A generic response with no result value answers with JSON null.
    let empty = ProviderParamFields {
        correlation_id: "c".to_string(),
        result: None,
        error_code: None,
        error_message: None,
    };
    let pr = ProviderRegistrar::get_provider_response_from_fields(
        ProviderResponsePayloadType::GenericResponse,
        Some(empty),
    )
    .unwrap();
    match pr.result {
        ProviderResponsePayload::GenericResponse(v) => assert_eq!(v, serde_json::Value::Null),
        _ => panic!("expected a generic response payload"),
    }

    assert!(ProviderRegistrar::get_provider_response_from_fields(
        ProviderResponsePayloadType::ChallengeResponse,
        None,
    )
    .is_none());
}

#[test]
fn test_rpc_provider_payloads_by_capability() {
    let ack = RPCProvider::new(
        PlatformState::new(),
        ack_challenge_capability(),
        "ack.challenge.request".to_string(),
    );
    assert!(matches!(
        ack.get_response_payload(serde_json::Value::Null),
        Some(ProviderResponsePayload::ChallengeResponse(_))
    ));
    assert!(matches!(
        ack.get_error_payload(serde_json::Value::Null),
        Some(ProviderResponsePayload::ChallengeError(_))
    ));

    let other =
        RPCProvider::new(PlatformState::new(), "other.capability".to_string(), "e".to_string());
    assert!(other.get_response_payload(serde_json::Value::Null).is_none());

    let mut other = other;
    let outcome = other.response(
        CallContext { call_id: 1, app_id: "a".to_string() },
        ExternalProviderResponse {
            correlation_id: "c".to_string(),
            result: serde_json::Value::Null,
        },
    );
    assert_eq!(outcome.unwrap_err().message, "No response payload defined");
}

#[test]
fn test_rpc_provider_listener_roundtrip() {
    let mut provider = RPCProvider::new(
        PlatformState::new(),
        ack_challenge_capability(),
        "ack.challenge.request".to_string(),
    );
    let response = provider
        .on_request(
            CallContext { call_id: 1, app_id: "appA".to_string() },
            ListenRequest { listen: true },
        )
        .unwrap();
    assert!(response.listening);
    assert_eq!(response.event, "ack.challenge.request");

    let response = provider
        .on_request(
            CallContext { call_id: 2, app_id: "appA".to_string() },
            ListenRequest { listen: false },
        )
        .unwrap();
    assert!(!response.listening);
}

#[test]
fn test_generate_descriptor_table() {
    let provider_map: Vec<(String, ProviderSet)> = vec![
        (
            "ack.method".to_string(),
            ProviderSet {
                attributes: Some(ProviderAttributes {
                    name: "ack".to_string(),
                    event: "onAck".to_string(),
                }),
                provides: Some(ack_challenge_capability()),
            },
        ),
        (
            "pin.method".to_string(),
            ProviderSet {
                attributes: Some(ProviderAttributes {
                    name: "pin".to_string(),
                    event: "onPin".to_string(),
                }),
                provides: Some("bar".to_string()),
            },
        ),
        (
            "plain.method".to_string(),
            ProviderSet { attributes: None, provides: Some("bar".to_string()) },
        ),
        (
            "unknown.method".to_string(),
            ProviderSet {
                attributes: Some(ProviderAttributes {
                    name: "u".to_string(),
                    event: "onU".to_string(),
                }),
                provides: Some("unhandled.capability".to_string()),
            },
        ),
    ];
    let descriptors: Vec<ProviderDescriptor> = RippleRPCProviderGenerator::generate(&provider_map);
    assert_eq!(descriptors.len(), 2);
    assert_eq!(descriptors[0].name, "ack");
    assert!(matches!(
        descriptors[0].response_kind,
        ProviderResponsePayloadType::ChallengeResponse
    ));
    assert!(matches!(descriptors[0].error_kind, ProviderResponsePayloadType::ChallengeError));
    assert_eq!(descriptors[1].name, "pin");
    assert!(matches!(
        descriptors[1].response_kind,
        ProviderResponsePayloadType::PinChallengeResponse
    ));
}

#[test]
fn test_rpc_provider_focus_routes_to_listener() {
    let mut provider = RPCProvider::new(
        PlatformState::new(),
        ack_challenge_capability(),
        "ack.challenge.request".to_string(),
    );
    // With no listener the focus directive has nowhere to go.
    let outcome = provider.focus(
        CallContext { call_id: 1, app_id: "caller".to_string() },
        FocusRequest { focused: true },
    );
    assert!(matches!(outcome, Err(RoutingError::NoProviderRegistered)));

    provider
        .on_request(
            CallContext { call_id: 2, app_id: "appA".to_string() },
            ListenRequest { listen: true },
        )
        .unwrap();
    let delivery = provider
        .focus(
            CallContext { call_id: 3, app_id: "caller".to_string() },
            FocusRequest { focused: true },
        )
        .unwrap();
    assert_eq!(delivery.app_id, "appA");
    assert_eq!(delivery.event, "ack.challenge.request");
}

#[test]
fn test_on_request_toggle_governs_challenge_dispatch() {
    let mut provider = RPCProvider::new(
        PlatformState::new(),
        ack_challenge_capability(),
        "ack.challenge.request".to_string(),
    );
    provider
        .on_request(
            CallContext { call_id: 1, app_id: "appA".to_string() },
            ListenRequest { listen: true },
        )
        .unwrap();

    let (tx, _rx) = tokio::sync::oneshot::channel();
    let delivery = provider
        .platform_state
        .provider_broker
        .dispatch_challenge(
            &ack_challenge_capability(),
            CallContext { call_id: 2, app_id: "caller".to_string() },
            "c1".to_string(),
            0,
            15000,
            tx,
        )
        .unwrap();
    assert_eq!(delivery.app_id, "appA");

    provider
        .on_request(
            CallContext { call_id: 3, app_id: "appA".to_string() },
            ListenRequest { listen: false },
        )
        .unwrap();
    let (tx2, _rx2) = tokio::sync::oneshot::channel();
    let outcome = provider.platform_state.provider_broker.dispatch_challenge(
        &ack_challenge_capability(),
        CallContext { call_id: 4, app_id: "caller".to_string() },
        "c2".to_string(),
        0,
        15000,
        tx2,
    );
    assert!(matches!(outcome, Err(RoutingError::NoProviderRegistered)));
}
