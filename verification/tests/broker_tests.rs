use ssda_gateway::broker::{
    BrokerSender, EndpointBroker, RoutableRequest, ServiceBroker, BROKER_CHANNEL_BUFFER_SIZE,
};
use ssda_gateway::jsonrpc::{
    routing_response_to_json_rpc, transport_error_response, JSON_RPC_SERVICE_ERROR_CODE,
};
use ssda_gateway::platform::PlatformState;
use ssda_gateway::routing::{
    ServiceRoutingErrorResponse, ServiceRoutingResponse, ServiceRoutingSuccessResponse,
};
use ssda_gateway::types::{CallContext, RoutingError, RpcRequest, ServiceRequestId};

fn rpc(call_id: u64, method: &str) -> RpcRequest {
    RpcRequest {
        method: method.to_string(),
        params: serde_json::Value::Null,
        ctx: CallContext { call_id, app_id: "app".to_string() },
    }
}

fn routable(call_id: u64) -> RoutableRequest {
    RoutableRequest { rpc: rpc(call_id, "m"), target: "service".to_string() }
}

#[test]
fn test_get_broker_requires_configuration() {
    assert!(matches!(
        ServiceBroker::get_broker(None, BROKER_CHANNEL_BUFFER_SIZE),
        Err(RoutingError::ConfigurationMissing)
    ));

    // A platform state with no gateway routing queue is equally unusable.
    let ps = PlatformState::new();
    assert!(matches!(
        ServiceBroker::get_broker(Some(&ps), BROKER_CHANNEL_BUFFER_SIZE),
        Err(RoutingError::ConfigurationMissing)
    ));
}

#[test]
fn test_broker_mailbox_and_gateway_submission() {
    let (gw_tx, mut gw_rx) = tokio::sync::mpsc::channel(8);
    let mut ps = PlatformState::new();
    ps.set_services_gateway_sender(gw_tx);

    let (broker, mut mailbox_rx) =
        ServiceBroker::get_broker(Some(&ps), BROKER_CHANNEL_BUFFER_SIZE).unwrap();

    let sender: BrokerSender = broker.get_sender();
    assert!(sender.try_send(routable(41)).is_ok());
    let queued = match mailbox_rx.try_recv() {
        Ok(request) => request,
        Err(_) => panic!("the mailbox should hold the request"),
    };
    assert_eq!(queued.rpc.ctx.call_id, 41);
    assert_eq!(queued.target, "service");

    // The drained request is minted a correlation id from its call id and
    // handed to the gateway's routing queue.
    let (reply_tx, _reply_rx) = tokio::sync::oneshot::channel();
    let routing_request = ServiceBroker::make_routing_request(queued.rpc, reply_tx);
    assert_eq!(routing_request.request_id, ServiceRequestId::new(41));
    assert_eq!(routing_request.payload.method, "m");
    assert!(broker.submit_to_gateway(routing_request).is_ok());
    let forwarded = gw_rx.try_recv().expect("the gateway queue should hold the request");
    assert_eq!(forwarded.request_id.request_id, 41);

    assert!(broker.get_cleaner().cleaner.is_none());
}

#[test]
fn test_mailbox_full_and_closed() {
    let (gw_tx, _gw_rx) = tokio::sync::mpsc::channel(8);
    let mut ps = PlatformState::new();
    ps.set_services_gateway_sender(gw_tx);

    // Capacity one: the second submission is refused, not queued unbounded.
    let (broker, mailbox_rx) = ServiceBroker::get_broker(Some(&ps), 1).unwrap();
    let sender = broker.get_sender();
    assert!(sender.try_send(routable(1)).is_ok());
    assert!(matches!(sender.try_send(routable(2)), Err(RoutingError::MailboxFull)));

    // Once the consuming task is gone, submission reports the closed mailbox.
    drop(mailbox_rx);
    assert!(matches!(sender.try_send(routable(3)), Err(RoutingError::MailboxClosed)));
}

#[test]
fn test_routing_outcome_to_json_rpc_envelopes() {
    let success = routing_response_to_json_rpc(ServiceRoutingResponse::Success(
        ServiceRoutingSuccessResponse {
            request_id: ServiceRequestId::new(5),
            response: serde_json::Value::String("ok".to_string()),
        },
    ));
    assert_eq!(success.jsonrpc, "2.0");
    assert_eq!(success.id, Some(5));
    assert_eq!(success.result, Some(serde_json::Value::String("ok".to_string())));
    assert!(success.error.is_none());

    let failure = routing_response_to_json_rpc(ServiceRoutingResponse::Error(
        ServiceRoutingErrorResponse {
            request_id: ServiceRequestId::new(6),
            error: "service failed".to_string(),
        },
    ));
    assert_eq!(failure.jsonrpc, "2.0");
    assert_eq!(failure.id, Some(6));
    assert!(failure.result.is_none());
    let err = failure.error.expect("an error envelope");
    assert_eq!(err.code, JSON_RPC_SERVICE_ERROR_CODE);
    assert_eq!(err.message, "service failed");

    let transport = transport_error_response(7);
    assert_eq!(transport.id, Some(7));
    assert_eq!(transport.error.expect("an error envelope").message, "transport disconnected");
}

#[test]
fn test_dispatch_error_envelope() {
    let full = ssda_gateway::jsonrpc::dispatch_error_response(9, RoutingError::MailboxFull);
    assert_eq!(full.jsonrpc, "2.0");
    assert_eq!(full.id, Some(9));
    assert!(full.result.is_none());
    let err = full.error.expect("an error envelope");
    assert_eq!(err.code, JSON_RPC_SERVICE_ERROR_CODE);
    assert_eq!(err.message, "mailbox full");

    let closed = ssda_gateway::jsonrpc::dispatch_error_response(10, RoutingError::MailboxClosed);
    assert_eq!(closed.error.expect("an error envelope").message, "mailbox closed");
}
