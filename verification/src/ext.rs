//! Trusted declarations for the outside crates the routing layer calls:
//! `serde_json` values carried opaquely through the gateway, and tokio
//! channels used as broker mailboxes and single-use reply channels.

use vstd::prelude::*;

verus! {

#[verifier::external_type_specification]
#[verifier::external_body]
pub struct ExJsonValue(serde_json::Value);

#[verifier::external_type_specification]
#[verifier::external_body]
#[verifier::reject_recursive_types(T)]
pub struct ExOneshotSender<T>(tokio::sync::oneshot::Sender<T>);

#[verifier::external_type_specification]
#[verifier::external_body]
#[verifier::reject_recursive_types(T)]
pub struct ExMpscSender<T>(tokio::sync::mpsc::Sender<T>);

#[verifier::external_type_specification]
#[verifier::external_body]
#[verifier::reject_recursive_types(T)]
pub struct ExMpscReceiver<T>(tokio::sync::mpsc::Receiver<T>);

/// Relies on tokio's `oneshot::Sender::send`: delivers the value to the
/// receiver if it still listens; on failure the value is handed back.
#[verifier::external_body]
pub fn oneshot_send<T>(tx: tokio::sync::oneshot::Sender<T>, value: T) -> (r: Result<(), T>)
    ensures
        r matches Err(v) ==> v == value,
{
    tx.send(value)
}

/// What a non-blocking submission to a bounded mailbox came to.
pub enum SendOutcome<T> {
    Sent,
    Full(T),
    Closed(T),
}

/// What a non-blocking read from a mailbox came to.
pub enum RecvOutcome<T> {
    Received(T),
    Empty,
    Disconnected,
}

/// Relies on tokio's `mpsc::channel`: creates a bounded channel; it panics on
/// a zero buffer and on a buffer beyond the semaphore's permit ceiling, so
/// those inputs are left out.
#[verifier::external_body]
pub fn mailbox_channel<T>(buffer: usize) -> (tokio::sync::mpsc::Sender<T>, tokio::sync::mpsc::Receiver<T>)
    requires
        1 <= buffer <= usize::MAX >> 3,
{
    tokio::sync::mpsc::channel(buffer)
}

/// Relies on tokio's `mpsc::Sender::try_send`: enqueues without blocking, or
/// reports the mailbox full or closed, handing the value back either way.
#[verifier::external_body]
pub fn mailbox_try_send<T>(tx: &tokio::sync::mpsc::Sender<T>, value: T) -> (r: SendOutcome<T>)
    ensures
        r matches SendOutcome::Full(v) ==> v == value,
        r matches SendOutcome::Closed(v) ==> v == value,
{
    match tx.try_send(value) {
        Ok(()) => SendOutcome::Sent,
        Err(tokio::sync::mpsc::error::TrySendError::Full(v)) => SendOutcome::Full(v),
        Err(tokio::sync::mpsc::error::TrySendError::Closed(v)) => SendOutcome::Closed(v),
    }
}

/// Relies on tokio's `mpsc::Receiver::try_recv`: takes the next queued value
/// without blocking, or reports the mailbox empty or disconnected.
#[verifier::external_body]
pub fn mailbox_try_recv<T>(rx: &mut tokio::sync::mpsc::Receiver<T>) -> (r: RecvOutcome<T>)
{
    match rx.try_recv() {
        Ok(v) => RecvOutcome::Received(v),
        Err(tokio::sync::mpsc::error::TryRecvError::Empty) => RecvOutcome::Empty,
        Err(tokio::sync::mpsc::error::TryRecvError::Disconnected) => RecvOutcome::Disconnected,
    }
}

/// Relies on tokio's `mpsc::Sender::clone`: a further handle to the same
/// mailbox.
#[verifier::external_body]
pub fn clone_mailbox_sender<T>(tx: &tokio::sync::mpsc::Sender<T>) -> tokio::sync::mpsc::Sender<T>
{
    tx.clone()
}

/// Whether a JSON value is the null value: what `Value::is_null` reports, a
/// function of the value alone.
pub uninterp spec fn json_is_null(v: serde_json::Value) -> bool;

/// Relies on `serde_json::Value::is_null`: true exactly of the null value.
pub assume_specification[ serde_json::Value::is_null ](v: &serde_json::Value) -> (r: bool)
    ensures
        r == json_is_null(*v),
;

/// Relies on `serde_json::Value::Null`: the null JSON value.
#[verifier::external_body]
pub fn json_null() -> (r: serde_json::Value)
    ensures
        json_is_null(r),
{
    serde_json::Value::Null
}

} // verus!
