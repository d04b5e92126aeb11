//! Gateway routing layer: accepts JSON-RPC-shaped requests and routes each to
//! an out-of-process service (over a persistent connection, with a correlated
//! reply) or to an in-process provider (a UI component answering a capability
//! challenge), guaranteeing exactly one terminal outcome per request.

pub mod backoff;
pub mod broker;
pub mod client;
pub mod ext;
pub mod jsonrpc;
pub mod laws;
pub mod messages;
pub mod platform;
pub mod provider;
pub mod registrar;
pub mod routing;
pub mod rpc_provider;
pub mod rules;
pub mod types;
