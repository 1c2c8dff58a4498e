//! The transport: a typed, cloneable channel of byte frames that works
//! across both thread and process boundaries. The outside calls into
//! ipc-channel stand behind trusted declarations here; everything that
//! frames, checks and interprets the bytes is verified code.
use vstd::prelude::*;
use vstd::string::StringExecFns;

use crate::error::PyRunnerError;
use crate::listener::MessageListener;
use crate::receiver::MessageReceiver;
use crate::sender::MessageSender;

verus! {

#[verifier::external_type_specification]
#[verifier::external_body]
#[verifier::reject_recursive_types(T)]
pub struct ExIpcSender<T>(ipc_channel::ipc::IpcSender<T>);

#[verifier::external_type_specification]
#[verifier::external_body]
#[verifier::reject_recursive_types(T)]
pub struct ExIpcReceiver<T>(ipc_channel::ipc::IpcReceiver<T>);

/// What one receive attempt on the transport can yield.
pub(crate) enum RecvEvent {
    Frame(Vec<u8>),
    TimedOut,
    Disconnected,
    Malfunction(String),
}

/// Relies on ipc_channel::ipc::channel: creates a connected sender/receiver
/// pair; it fails only when the OS cannot provide the transport.
#[verifier::external_body]
pub(crate) fn ipc_channel_pair() -> (r: Option<
    (ipc_channel::ipc::IpcSender<Vec<u8>>, ipc_channel::ipc::IpcReceiver<Vec<u8>>),
>) {
    match ipc_channel::ipc::channel::<Vec<u8>>() {
        Ok(pair) => Some(pair),
        Err(_) => None,
    }
}

/// Relies on IpcSender::send: hands one byte frame to the paired receiver,
/// in order with respect to this sender's other frames; it fails when the
/// receiving end is gone or the OS transport fails.
#[verifier::external_body]
pub(crate) fn send_frame(
    s: &ipc_channel::ipc::IpcSender<Vec<u8>>,
    frame: &Vec<u8>,
) -> (r: Result<(), PyRunnerError>)
    ensures
        r matches Err(e) ==> e is MessageSendError,
{
    match s.send(frame.clone()) {
        Ok(()) => Ok(()),
        Err(e) => Err(PyRunnerError::MessageSendError(e.to_string())),
    }
}

/// Relies on IpcSender::clone: the clone feeds the same receiver and may be
/// moved to another thread or process.
#[verifier::external_body]
pub(crate) fn clone_raw_sender(
    s: &ipc_channel::ipc::IpcSender<Vec<u8>>,
) -> (r: ipc_channel::ipc::IpcSender<Vec<u8>>) {
    s.clone()
}

/// Relies on IpcReceiver::recv: blocks for the next frame and reports a
/// closed channel once all senders are dropped and the queue is drained.
#[verifier::external_body]
pub(crate) fn recv_frame_blocking(r: &ipc_channel::ipc::IpcReceiver<Vec<u8>>) -> (ev: RecvEvent)
    ensures
        !(ev is TimedOut),
{
    match r.recv() {
        Ok(data) => RecvEvent::Frame(data),
        Err(ipc_channel::IpcError::Disconnected) => RecvEvent::Disconnected,
        Err(e) => RecvEvent::Malfunction(e.to_string()),
    }
}

/// Relies on IpcReceiver::try_recv: returns at once with the next frame if
/// one is queued, or with an empty result.
#[verifier::external_body]
pub(crate) fn recv_frame_try(r: &ipc_channel::ipc::IpcReceiver<Vec<u8>>) -> (ev: RecvEvent) {
    match r.try_recv() {
        Ok(data) => RecvEvent::Frame(data),
        Err(ipc_channel::TryRecvError::Empty) => RecvEvent::TimedOut,
        Err(ipc_channel::TryRecvError::IpcError(ipc_channel::IpcError::Disconnected)) => RecvEvent::Disconnected,
        Err(ipc_channel::TryRecvError::IpcError(e)) => RecvEvent::Malfunction(e.to_string()),
    }
}

/// Relies on IpcReceiver::try_recv_timeout: waits up to the given number of
/// milliseconds for the next frame.
#[verifier::external_body]
pub(crate) fn recv_frame_timeout(
    r: &ipc_channel::ipc::IpcReceiver<Vec<u8>>,
    timeout_ms: u64,
) -> (ev: RecvEvent) {
    match r.try_recv_timeout(std::time::Duration::from_millis(timeout_ms)) {
        Ok(data) => RecvEvent::Frame(data),
        Err(ipc_channel::TryRecvError::Empty) => RecvEvent::TimedOut,
        Err(ipc_channel::TryRecvError::IpcError(ipc_channel::IpcError::Disconnected)) => RecvEvent::Disconnected,
        Err(ipc_channel::TryRecvError::IpcError(e)) => RecvEvent::Malfunction(e.to_string()),
    }
}

/// Creates a fresh channel and a receiver that already dispatches to the
/// given listener. Both ends start with an empty message history.
pub fn create_message_channel<L: MessageListener>(listener: L) -> (r: Result<
    (MessageSender, MessageReceiver<L>),
    PyRunnerError,
>)
    ensures
        r matches Ok(pair) ==> pair.0@ == Seq::<crate::message::MsgView>::empty() && pair.1@
            == Seq::<crate::message::MsgView>::empty() && pair.1.spec_num_listeners() == 1,
        r matches Err(e) ==> e is IoError,
{
    match ipc_channel_pair() {
        Some((tx, rx)) => {
            let sender = MessageSender::new(tx);
            let receiver = MessageReceiver::new(rx).with_listener(listener);
            Ok((sender, receiver))
        },
        None => Err(
            PyRunnerError::IoError {
                message: String::from_str("failed to create the message channel"),
            },
        ),
    }
}

} // verus!
