use ssda_gateway::platform::PlatformState;
use ssda_gateway::provider::{ChallengeReply, ListenRequest, ProviderResponsePayload, ProviderResponsePayloadType};
use ssda_gateway::types::CallContext;
use ssda_gateway::registrar::{
    MethodRegistry, MethodType, ProviderRegistrar, ProviderRelationSet, RpcModuleContext,
};

fn platform_with_relations(relations: Vec<(String, ProviderRelationSet)>) -> PlatformState {
    let mut platform_state = PlatformState::new();
    platform_state.set_provider_relation_map(relations);
    platform_state
}

#[test]
fn test_register_methods() {
    let mut methods = MethodRegistry::new();
    let mut provider_relation_map: Vec<(String, ProviderRelationSet)> = Vec::new();
    provider_relation_map.push(("some.method".to_string(), ProviderRelationSet::new()));
    let platform_state = platform_with_relations(provider_relation_map);

    let registered_methods = ProviderRegistrar::register_methods(&platform_state, &mut methods);

    assert!(registered_methods == 0);
}

#[test]
fn test_register_method_event_provided_by() {
    let mut methods = MethodRegistry::new();
    let provider_relation_set = ProviderRelationSet {
        event: true,
        provided_by: Some("some.other_method".to_string()),
        ..Default::default()
    };
    let mut provider_relation_map: Vec<(String, ProviderRelationSet)> = Vec::new();
    provider_relation_map.push(("some.method".to_string(), provider_relation_set));
    let platform_state = platform_with_relations(provider_relation_map);

    let registered_methods = ProviderRegistrar::register_methods(&platform_state, &mut methods);

    assert!(registered_methods == 1);
}

#[test]
fn test_register_method_event_provides() {
    let mut methods = MethodRegistry::new();
    let provider_relation_set = ProviderRelationSet {
        event: true,
        capability: Some("some.capability".to_string()),
        ..Default::default()
    };
    let mut provider_relation_map: Vec<(String, ProviderRelationSet)> = Vec::new();
    provider_relation_map.push(("some.method".to_string(), provider_relation_set));
    let platform_state = platform_with_relations(provider_relation_map);

    let registered_methods = ProviderRegistrar::register_methods(&platform_state, &mut methods);

    assert!(registered_methods == 1);
}

#[test]
fn test_register_method_event_provides_to() {
    let mut methods = MethodRegistry::new();
    let provider_relation_set = ProviderRelationSet {
        event: true,
        provides_to: Some("some.other.method".to_string()),
        ..Default::default()
    };
    let mut provider_relation_map: Vec<(String, ProviderRelationSet)> = Vec::new();
    provider_relation_map.push(("some.method".to_string(), provider_relation_set));
    let platform_state = platform_with_relations(provider_relation_map);

    let registered_methods = ProviderRegistrar::register_methods(&platform_state, &mut methods);

    assert!(registered_methods == 1);
}

#[test]
fn test_register_method_provides_to() {
    let mut methods = MethodRegistry::new();
    let provider_relation_set = ProviderRelationSet {
        event: true,
        provides_to: Some("some.other.method".to_string()),
        ..Default::default()
    };
    let mut provider_relation_map: Vec<(String, ProviderRelationSet)> = Vec::new();
    provider_relation_map.push(("some.method".to_string(), provider_relation_set));
    let platform_state = platform_with_relations(provider_relation_map);

    let registered_methods = ProviderRegistrar::register_methods(&platform_state, &mut methods);

    assert!(registered_methods == 1);
}

#[test]
fn test_register_method_error_for() {
    let mut methods = MethodRegistry::new();
    let provider_relation_set = ProviderRelationSet {
        error_for: Some("some.other.method".to_string()),
        ..Default::default()
    };
    let mut provider_relation_map: Vec<(String, ProviderRelationSet)> = Vec::new();
    provider_relation_map.push(("some.method".to_string(), provider_relation_set));
    let platform_state = platform_with_relations(provider_relation_map);

    let registered_methods = ProviderRegistrar::register_methods(&platform_state, &mut methods);

    assert!(registered_methods == 1);
}

#[test]
fn test_register_method_provided_by() {
    let mut methods = MethodRegistry::new();
    let provider_relation_set = ProviderRelationSet {
        provided_by: Some("some.other.method".to_string()),
        ..Default::default()
    };
    let mut provider_relation_map: Vec<(String, ProviderRelationSet)> = Vec::new();
    provider_relation_map.push(("some.method".to_string(), provider_relation_set));
    let platform_state = platform_with_relations(provider_relation_map);

    let registered_methods = ProviderRegistrar::register_methods(&platform_state, &mut methods);

    assert!(registered_methods == 1);
}

#[test]
fn test_register_method_allow_focus_for() {
    let mut methods = MethodRegistry::new();
    let provider_relation_set = ProviderRelationSet {
        allow_focus_for: Some("some.other.method".to_string()),
        ..Default::default()
    };
    let mut provider_relation_map: Vec<(String, ProviderRelationSet)> = Vec::new();
    provider_relation_map.push(("some.method".to_string(), provider_relation_set));
    let platform_state = platform_with_relations(provider_relation_map);

    let registered_methods = ProviderRegistrar::register_methods(&platform_state, &mut methods);

    assert!(registered_methods == 1);
}

#[test]
fn test_register_method_response_for() {
    let mut methods = MethodRegistry::new();
    let provider_relation_set = ProviderRelationSet {
        response_for: Some("some.other.method".to_string()),
        ..Default::default()
    };
    let mut provider_relation_map: Vec<(String, ProviderRelationSet)> = Vec::new();
    provider_relation_map.push(("some.method".to_string(), provider_relation_set));
    let platform_state = platform_with_relations(provider_relation_map);

    let registered_methods = ProviderRegistrar::register_methods(&platform_state, &mut methods);

    assert!(registered_methods == 1);
}

#[test]
fn test_register_method_duplicate() {
    const METHOD_NAME: &str = "some.method";

    let provider_relation_set = ProviderRelationSet {
        response_for: Some("some.other.method".to_string()),
        ..Default::default()
    };

    let rpc_module_context = RpcModuleContext::new(
        PlatformState::new(),
        String::from(METHOD_NAME),
        provider_relation_set.clone(),
    );
    let _ = rpc_module_context;

    let mut registry = MethodRegistry::new();

    let result =
        ProviderRegistrar::register_method(METHOD_NAME, MethodType::AppEventEmitter, &mut registry);

    assert!(result);

    let result =
        ProviderRegistrar::register_method(METHOD_NAME, MethodType::ProviderInvoker, &mut registry);

    assert!(!result);
}

#[test]
fn test_generic_error() {
    let ctx = r#"{"callId":1,"appId":"test"}"#;
    let p = format!(
        r#"[{},{{"correlationId":"someid","error":{{"code":-60001,"message":"The Player with 'ipa' id does not exist"}}}}]"#,
        ctx
    );
    let result =
        ProviderRegistrar::get_provider_response(ProviderResponsePayloadType::GenericError, &p)
            .unwrap();
    assert!(result.correlation_id.eq("someid"));
    if let ProviderResponsePayload::GenericError(c) = result.result {
        assert!(c.code == -60001);
        assert!(c.message.eq("The Player with 'ipa' id does not exist"))
    } else {
        panic!("expected a generic error payload");
    }
}

#[test]
fn test_generic_response_from_params() {
    let p = r#"[{"callId":2,"appId":"test"},{"correlationId":"resp-1","result":42}]"#;
    let result = ProviderRegistrar::get_provider_response(
        ProviderResponsePayloadType::GenericResponse,
        p,
    )
    .unwrap();
    assert_eq!(result.correlation_id, "resp-1");
    match result.result {
        ProviderResponsePayload::GenericResponse(v) => {
            assert_eq!(v, serde_json::Value::Number(serde_json::Number::from(42)))
        }
        _ => panic!("expected a generic response payload"),
    }
}

#[test]
fn test_callback_error_resolves_pending_challenge() {
    let mut context = RpcModuleContext::new(
        PlatformState::new(),
        "some.method".to_string(),
        ProviderRelationSet::new(),
    );
    context.platform_state.provider_broker.register_or_unregister_listener(
        "cap".to_string(),
        "m".to_string(),
        "onCap".to_string(),
        &CallContext { call_id: 1, app_id: "appA".to_string() },
        &ListenRequest { listen: true },
    );
    let (tx, mut rx) = tokio::sync::oneshot::channel();
    context
        .platform_state
        .provider_broker
        .dispatch_challenge(
            &"cap".to_string(),
            CallContext { call_id: 2, app_id: "caller".to_string() },
            "someid".to_string(),
            0,
            15000,
            tx,
        )
        .unwrap();

    let params = r#"[{"callId":2,"appId":"caller"},{"correlationId":"someid","error":{"code":-7,"message":"denied"}}]"#;
    let outcome = ProviderRegistrar::callback_error(&mut context, params);
    assert!(matches!(outcome, Ok(None)));
    assert!(!context
        .platform_state
        .provider_broker
        .has_pending_challenge(&"someid".to_string()));
    match rx.try_recv().unwrap() {
        ChallengeReply::Answer(ProviderResponsePayload::GenericError(e)) => {
            assert_eq!(e.code, -7);
            assert_eq!(e.message, "denied");
        }
        _ => panic!("expected the provider's error answer"),
    }

    // Parameters with no error object decode to no answer and are refused.
    let bad = r#"[{"callId":2,"appId":"caller"},{"correlationId":"other"}]"#;
    let refused = ProviderRegistrar::callback_error(&mut context, bad);
    assert_eq!(refused.unwrap_err().message, "Missing provider attributes");
}
