use ssda_gateway::messages::{
    FireboltMethodHandlerAPIRegistration, ServiceCallErrorResponse, ServiceCallResponse,
    ServiceCallSuccessResponse, ServiceRegistration,
};
use ssda_gateway::routing::{ApiGateway, ServiceRoutingRequest, ServiceRoutingResponse};
use ssda_gateway::types::{CallContext, RoutingError, RpcRequest, ServiceId, ServiceRequestId};

fn routing_request(
    id: u64,
    method: &str,
    value: serde_json::Value,
) -> (
    ServiceRoutingRequest,
    tokio::sync::oneshot::Receiver<ServiceRoutingResponse>,
) {
    let (tx, rx) = tokio::sync::oneshot::channel();
    let request = ServiceRoutingRequest {
        request_id: ServiceRequestId::new(id),
        payload: RpcRequest {
            method: method.to_string(),
            params: value,
            ctx: CallContext { call_id: id, app_id: "app".to_string() },
        },
        respond_to: tx,
    };
    (request, rx)
}

#[test]
fn test_ownership_conflict() {
    let mut gateway = ApiGateway::new();
    let s1 = ServiceId::new("S1".to_string());
    let s2 = ServiceId::new("S2".to_string());

    assert!(gateway.register_method("m1".to_string(), &s1, None).is_ok());
    assert_eq!(
        gateway.register_method("m1".to_string(), &s2, None),
        Err(RoutingError::DuplicateRegistration)
    );

    gateway.unregister_service(&s1);
    assert!(gateway.register_method("m1".to_string(), &s2, None).is_ok());
    assert!(gateway.owns_method(&"m1".to_string()));
}

#[test]
fn test_register_service_accepts_free_methods() {
    let mut gateway = ApiGateway::new();
    let s1 = ServiceId::new("S1".to_string());
    let s2 = ServiceId::new("S2".to_string());

    assert!(gateway.register_method("a".to_string(), &s1, None).is_ok());

    let registration = ServiceRegistration::new(
        s2.clone(),
        vec![
            FireboltMethodHandlerAPIRegistration { firebolt_method: "a".to_string(), jq_rule: None },
            FireboltMethodHandlerAPIRegistration { firebolt_method: "b".to_string(), jq_rule: None },
        ],
    );
    let response = gateway.register_service(&registration).unwrap();
    assert_eq!(response.firebolt_handlers.len(), 1);
    assert_eq!(response.firebolt_handlers[0].firebolt_method, "b");

    let rejected = ServiceRegistration::new(
        ServiceId::new("S3".to_string()),
        vec![FireboltMethodHandlerAPIRegistration {
            firebolt_method: "a".to_string(),
            jq_rule: None,
        }],
    );
    assert!(matches!(
        gateway.register_service(&rejected),
        Err(RoutingError::DuplicateRegistration)
    ));
}

#[test]
fn test_unregister_removes_all_methods() {
    let mut gateway = ApiGateway::new();
    let s1 = ServiceId::new("S1".to_string());
    assert!(gateway.register_method("a".to_string(), &s1, None).is_ok());
    assert!(gateway.register_method("b".to_string(), &s1, None).is_ok());
    gateway.unregister_service(&s1);
    assert!(!gateway.owns_method(&"a".to_string()));
    assert!(!gateway.owns_method(&"b".to_string()));
}

#[test]
fn test_out_of_order_replies_reach_their_callers() {
    let mut gateway = ApiGateway::new();
    let s1 = ServiceId::new("S1".to_string());
    assert!(gateway.register_method("m".to_string(), &s1, None).is_ok());

    let (req_a, mut rx_a) = routing_request(1, "m", serde_json::Value::Null);
    let (req_b, mut rx_b) = routing_request(2, "m", serde_json::Value::Null);
    let call_a = gateway.dispatch(req_a).unwrap();
    let call_b = gateway.dispatch(req_b).unwrap();
    assert_eq!(call_a.request_id.request_id, 1);
    assert_eq!(call_b.request_id.request_id, 2);

    // Reply to B before A: each caller still gets its own value.
    assert!(gateway.handle_service_reply(ServiceCallResponse::Success(
        ServiceCallSuccessResponse {
            request_id: ServiceRequestId::new(2),
            response: serde_json::Value::String("B".to_string()),
        }
    )));
    assert!(gateway.handle_service_reply(ServiceCallResponse::Success(
        ServiceCallSuccessResponse {
            request_id: ServiceRequestId::new(1),
            response: serde_json::Value::String("A".to_string()),
        }
    )));

    match rx_a.try_recv().unwrap() {
        ServiceRoutingResponse::Success(s) => {
            assert_eq!(s.request_id.request_id, 1);
            assert_eq!(s.response, serde_json::Value::String("A".to_string()));
        }
        ServiceRoutingResponse::Error(_) => panic!("expected a success outcome"),
    }
    match rx_b.try_recv().unwrap() {
        ServiceRoutingResponse::Success(s) => {
            assert_eq!(s.request_id.request_id, 2);
            assert_eq!(s.response, serde_json::Value::String("B".to_string()));
        }
        ServiceRoutingResponse::Error(_) => panic!("expected a success outcome"),
    }
}

#[test]
fn test_duplicate_reply_is_noop() {
    let mut gateway = ApiGateway::new();
    let s1 = ServiceId::new("S1".to_string());
    assert!(gateway.register_method("m".to_string(), &s1, None).is_ok());

    let (request, mut rx) = routing_request(7, "m", serde_json::Value::Null);
    gateway.dispatch(request).unwrap();
    assert!(gateway.has_pending(7));

    let first = gateway.handle_service_reply(ServiceCallResponse::Success(
        ServiceCallSuccessResponse {
            request_id: ServiceRequestId::new(7),
            response: serde_json::Value::Bool(true),
        },
    ));
    assert!(first);
    assert!(!gateway.has_pending(7));

    // A second reply for the already-resolved id resolves nothing.
    let second = gateway.handle_service_reply(ServiceCallResponse::Success(
        ServiceCallSuccessResponse {
            request_id: ServiceRequestId::new(7),
            response: serde_json::Value::Bool(false),
        },
    ));
    assert!(!second);

    match rx.try_recv().unwrap() {
        ServiceRoutingResponse::Success(s) => {
            assert_eq!(s.response, serde_json::Value::Bool(true));
        }
        ServiceRoutingResponse::Error(_) => panic!("expected the first outcome"),
    }
}

#[test]
fn test_error_reply_keeps_id_and_message() {
    let mut gateway = ApiGateway::new();
    let s1 = ServiceId::new("S1".to_string());
    assert!(gateway.register_method("m".to_string(), &s1, None).is_ok());

    let (request, mut rx) = routing_request(9, "m", serde_json::Value::Null);
    gateway.dispatch(request).unwrap();
    assert!(gateway.handle_service_reply(ServiceCallResponse::Error(ServiceCallErrorResponse {
        request_id: ServiceRequestId::new(9),
        error: "boom".to_string(),
    })));
    match rx.try_recv().unwrap() {
        ServiceRoutingResponse::Error(e) => {
            assert_eq!(e.request_id.request_id, 9);
            assert_eq!(e.error, "boom");
        }
        ServiceRoutingResponse::Success(_) => panic!("expected an error outcome"),
    }
}

#[test]
fn test_no_route_for_method_resolves_channel() {
    let mut gateway = ApiGateway::new();
    let (request, mut rx) = routing_request(3, "unowned", serde_json::Value::Null);
    let outcome = gateway.dispatch(request);
    assert!(matches!(outcome, Err(RoutingError::NoRouteForMethod)));
    assert!(!gateway.has_pending(3));
    // The caller still observes exactly one outcome: the error.
    match rx.try_recv().unwrap() {
        ServiceRoutingResponse::Error(e) => {
            assert_eq!(e.request_id.request_id, 3);
            assert_eq!(e.error, "no route for method");
        }
        ServiceRoutingResponse::Success(_) => panic!("expected an error outcome"),
    }
}
