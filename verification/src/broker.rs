//! The endpoint-broker capability and its service-backed implementation: a
//! bounded mailbox of routable requests drained by one long-lived task, each
//! request minted a correlation id from its call id, handed to the gateway's
//! routing queue, and its eventual outcome framed again as a JSON-RPC
//! envelope.

use vstd::prelude::*;

use crate::ext::{clone_mailbox_sender, mailbox_channel, mailbox_try_send, SendOutcome};
use crate::platform::PlatformState;
use crate::routing::{ServiceRoutingRequest, ServiceRoutingResponse};
use crate::types::{RoutingError, RpcRequest, ServiceRequestId};

verus! {

/// How many requests a broker's mailbox holds before it refuses admission.
pub const BROKER_CHANNEL_BUFFER_SIZE: usize = 32;

/// The normalized unit of work a broker accepts: the call itself and the
/// broker it is aimed at.
pub struct RoutableRequest {
    pub rpc: RpcRequest,
    pub target: String,
}

/// A handle for submitting requests into a broker's mailbox.
pub struct BrokerSender {
    pub sender: tokio::sync::mpsc::Sender<RoutableRequest>,
}

impl BrokerSender {
    /// Submits one request without blocking: a full mailbox or a gone broker
    /// task refuses it (and the taxonomy says which), rather than queueing
    /// without bound.
    pub fn try_send(&self, request: RoutableRequest) -> (r: Result<(), RoutingError>)
        ensures
            r matches Err(e) ==> (e == RoutingError::MailboxFull || e == RoutingError::MailboxClosed),
    {
        match mailbox_try_send(&self.sender, request) {
            SendOutcome::Sent => Ok(()),
            SendOutcome::Full(_) => Err(RoutingError::MailboxFull),
            SendOutcome::Closed(_) => Err(RoutingError::MailboxClosed),
        }
    }
}

/// Releases backend-specific resources at shutdown; a broker with nothing to
/// clean carries none.
pub struct BrokerCleaner {
    pub cleaner: Option<tokio::sync::mpsc::Sender<String>>,
}

/// Any component that accepts routable requests and eventually produces
/// exactly one outcome per request.
pub trait EndpointBroker {
    /// The handle requests are submitted through; it fails once the backend
    /// task has exited.
    fn get_sender(&self) -> BrokerSender;

    /// The cleanup handle for shutdown; doing nothing is allowed.
    fn get_cleaner(&self) -> BrokerCleaner;
}

/// The broker that forwards requests into the gateway-service routing
/// protocol and waits for the correlated reply.
pub struct ServiceBroker {
    sender: tokio::sync::mpsc::Sender<RoutableRequest>,
    gateway_sender: tokio::sync::mpsc::Sender<ServiceRoutingRequest>,
}

impl ServiceBroker {
    /// Builds the broker against the shared platform state. A missing state
    /// or a state with no gateway routing queue is a configuration error
    /// reported to the caller, never a process abort. The mailbox's receive
    /// half is returned for the single task that drains it in order.
    pub fn get_broker(ps: Option<&PlatformState>, capacity: usize) -> (r: Result<
        (ServiceBroker, tokio::sync::mpsc::Receiver<RoutableRequest>),
        RoutingError,
    >)
        requires
            1 <= capacity <= usize::MAX >> 3,
        ensures
            match ps {
                Some(p) => if p.services_gateway_sender is Some {
                    r is Ok
                } else {
                    r == Err::<(ServiceBroker, tokio::sync::mpsc::Receiver<RoutableRequest>), RoutingError>(
                        RoutingError::ConfigurationMissing,
                    )
                },
                None => r == Err::<(ServiceBroker, tokio::sync::mpsc::Receiver<RoutableRequest>), RoutingError>(
                    RoutingError::ConfigurationMissing,
                ),
            },
    {
        match ps {
            Some(p) => match &p.services_gateway_sender {
                Some(gateway_sender) => {
                    let (tx, rx) = mailbox_channel(capacity);
                    Ok((
                        ServiceBroker {
                            sender: tx,
                            gateway_sender: clone_mailbox_sender(gateway_sender),
                        },
                        rx,
                    ))
                },
                None => Err(RoutingError::ConfigurationMissing),
            },
            None => Err(RoutingError::ConfigurationMissing),
        }
    }

    /// Builds the routing request for one dequeued call: the correlation id
    /// is minted from the caller's call id, and the single-use reply channel
    /// rides along.
    pub fn make_routing_request(
        rpc: RpcRequest,
        respond_to: tokio::sync::oneshot::Sender<ServiceRoutingResponse>,
    ) -> (r: ServiceRoutingRequest)
        ensures
            r.request_id.request_id == rpc.ctx.call_id,
            r.payload == rpc,
            r.respond_to == respond_to,
    {
        let request_id = ServiceRequestId { request_id: rpc.ctx.call_id };
        ServiceRoutingRequest { request_id, payload: rpc, respond_to }
    }

    /// Submits one routing request to the gateway's inbound queue without
    /// blocking; failure to submit is reported as a dispatch error, never
    /// silently dropped.
    pub fn submit_to_gateway(&self, request: ServiceRoutingRequest) -> (r: Result<(), RoutingError>)
        ensures
            r matches Err(e) ==> (e == RoutingError::MailboxFull || e == RoutingError::MailboxClosed),
    {
        match mailbox_try_send(&self.gateway_sender, request) {
            SendOutcome::Sent => Ok(()),
            SendOutcome::Full(_) => Err(RoutingError::MailboxFull),
            SendOutcome::Closed(_) => Err(RoutingError::MailboxClosed),
        }
    }
}

impl EndpointBroker for ServiceBroker {
    fn get_sender(&self) -> BrokerSender {
        BrokerSender { sender: clone_mailbox_sender(&self.sender) }
    }

    fn get_cleaner(&self) -> (r: BrokerCleaner)
        ensures
            r.cleaner is None,
    {
        BrokerCleaner { cleaner: None }
    }
}

} // verus!
