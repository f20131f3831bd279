//! How the proxy backend answers a message of its peer.
//!
//! A received message is decoded and handled; if handling fails, the peer is
//! told with a `TcpClose` that carries the message's tunnel and the reason,
//! and the failure is reported.  The runtime performs each step and feeds
//! its outcome back as an event.

use vstd::prelude::*;

use crate::defeat::TunnelDefeat;
use crate::error::ProxyError;
use crate::message::{framed, ProxyMessage, TunnelId, XrtcMessage};
use crate::transport::TransportError;

verus! {

/// Where the answer to one received message stands.
pub enum MessageTask {
    /// Waiting for the message to be decoded.
    Decoding,
    /// Waiting for the message of tunnel `tid` to be handled.
    Handling { tid: TunnelId },
    /// Handling failed; waiting for the `TcpClose` to be encoded.
    Encoding { defeat: TunnelDefeat },
    /// Waiting for the encoded `TcpClose` to be sent.
    Sending { defeat: TunnelDefeat },
    /// Finished.
    Done,
}

/// The outcome of the step that the runtime performed.
pub enum MessageEvent {
    Decoded(Result<ProxyMessage, bincode::Error>),
    Handled(Result<(), TunnelDefeat>),
    Encoded(Result<Vec<u8>, bincode::Error>),
    Sent(Result<(), TransportError>),
}

/// The step that the runtime performs next.
pub enum MessageAction {
    /// Handle this message (see `Proxy::handle_message`).
    Handle(ProxyMessage),
    /// Encode this message for the data channel.
    Encode(ProxyMessage),
    /// Send this message on the connection the message came from.
    Send(XrtcMessage),
    /// The answer is complete, with this result.
    Finish(Result<(), ProxyError>),
}

/// Whether the event is the one the task waits for.
pub open spec fn awaits(task: MessageTask, event: MessageEvent) -> bool {
    match (task, event) {
        (MessageTask::Decoding, MessageEvent::Decoded(_)) => true,
        (MessageTask::Handling { .. }, MessageEvent::Handled(_)) => true,
        (MessageTask::Encoding { .. }, MessageEvent::Encoded(_)) => true,
        (MessageTask::Sending { .. }, MessageEvent::Sent(_)) => true,
        _ => false,
    }
}

/// One step of the answer: the next state and the next action.
pub open spec fn next(task: MessageTask, event: MessageEvent) -> (MessageTask, MessageAction) {
    match (task, event) {
        (MessageTask::Decoding, MessageEvent::Decoded(Err(e))) =>
            (MessageTask::Done, MessageAction::Finish(Err(ProxyError::Bincode(e)))),
        (MessageTask::Decoding, MessageEvent::Decoded(Ok(msg))) =>
            (MessageTask::Handling { tid: msg.tunnel() }, MessageAction::Handle(msg)),
        (MessageTask::Handling { .. }, MessageEvent::Handled(Ok(()))) =>
            (MessageTask::Done, MessageAction::Finish(Ok(()))),
        (MessageTask::Handling { tid }, MessageEvent::Handled(Err(defeat))) =>
            (MessageTask::Encoding { defeat },
             MessageAction::Encode(ProxyMessage::TcpClose { tid, reason: defeat })),
        (MessageTask::Encoding { defeat }, MessageEvent::Encoded(encoded)) => match framed(encoded) {
            Ok(message) => (MessageTask::Sending { defeat }, MessageAction::Send(message)),
            Err(e) => (MessageTask::Done, MessageAction::Finish(Err(e))),
        },
        (MessageTask::Sending { .. }, MessageEvent::Sent(Err(e))) =>
            (MessageTask::Done, MessageAction::Finish(Err(ProxyError::TransportError(e)))),
        (MessageTask::Sending { defeat }, MessageEvent::Sent(Ok(()))) =>
            (MessageTask::Done, MessageAction::Finish(Err(ProxyError::TunnelError(defeat)))),
        _ => (task, MessageAction::Finish(Ok(()))),
    }
}

impl MessageTask {
    pub fn new() -> (task: MessageTask)
        ensures
            task == MessageTask::Decoding,
    {
        MessageTask::Decoding
    }

    pub fn step(&mut self, event: MessageEvent) -> (action: MessageAction)
        requires
            awaits(*old(self), event),
        ensures
            (*final(self), action) == next(*old(self), event),
    {
        let mut task = MessageTask::Done;
        std::mem::swap(&mut task, self);
        match (task, event) {
            (MessageTask::Decoding, MessageEvent::Decoded(Err(e))) => {
                MessageAction::Finish(Err(ProxyError::Bincode(e)))
            },
            (MessageTask::Decoding, MessageEvent::Decoded(Ok(msg))) => {
                *self = MessageTask::Handling { tid: msg.tid() };
                MessageAction::Handle(msg)
            },
            (MessageTask::Handling { .. }, MessageEvent::Handled(Ok(()))) => {
                MessageAction::Finish(Ok(()))
            },
            (MessageTask::Handling { tid }, MessageEvent::Handled(Err(defeat))) => {
                *self = MessageTask::Encoding { defeat };
                MessageAction::Encode(ProxyMessage::TcpClose { tid, reason: defeat })
            },
            (MessageTask::Encoding { defeat }, MessageEvent::Encoded(encoded)) => {
                match XrtcMessage::from_encoded(encoded) {
                    Ok(message) => {
                        *self = MessageTask::Sending { defeat };
                        MessageAction::Send(message)
                    },
                    Err(e) => MessageAction::Finish(Err(e)),
                }
            },
            (MessageTask::Sending { .. }, MessageEvent::Sent(Err(e))) => {
                MessageAction::Finish(Err(ProxyError::TransportError(e)))
            },
            (MessageTask::Sending { defeat }, MessageEvent::Sent(Ok(()))) => {
                MessageAction::Finish(Err(ProxyError::TunnelError(defeat)))
            },
            (task, _) => {
                *self = task;
                MessageAction::Finish(Ok(()))
            },
        }
    }
}

} // verus!
