//! One tunnel: the handles of the task that pumps its TCP stream.

use vstd::prelude::*;

use tokio::sync::mpsc::Sender;
use tokio::task::JoinHandle;
use tokio_util::sync::CancellationToken;

use crate::message::TunnelId;

verus! {

/// `Sender::clone` gives another handle on the same channel.  A sender is
/// opaque here and stands for its channel, so the clone is stated equal to
/// the original, as vstd states it for `Arc::clone`.
pub assume_specification<T>[ <tokio::sync::mpsc::Sender<T> as Clone>::clone ](
    sender: &tokio::sync::mpsc::Sender<T>,
) -> (res: tokio::sync::mpsc::Sender<T>)
    ensures
        res == *sender,
;

/// A tunnel of the proxy.  Once its listener runs, the tunnel holds the
/// sender that feeds bytes from the peer to the local TCP stream, the token
/// that stops the listener, and the listener's task.
pub struct Tunnel {
    tid: TunnelId,
    remote_stream_tx: Option<Sender<Vec<u8>>>,
    listener_cancel_token: Option<CancellationToken>,
    listener: Option<JoinHandle<()>>,
}

impl Tunnel {
    /// The three handles are there together or not at all.
    #[verifier::type_invariant]
    spec fn handles_together(self) -> bool {
        &&& self.remote_stream_tx.is_some() == self.listener.is_some()
        &&& self.listener_cancel_token.is_some() == self.listener.is_some()
    }

    pub closed spec fn id(self) -> TunnelId {
        self.tid
    }

    /// Whether a listener has been started for this tunnel: it then has a
    /// sender that feeds the listener's local stream.
    pub open spec fn listening(self) -> bool {
        self.sender() is Some
    }

    /// The sender that feeds the listener's local stream.
    pub closed spec fn sender(self) -> Option<Sender<Vec<u8>>> {
        self.remote_stream_tx
    }

    /// The token that stops the listener.
    pub closed spec fn stop_token(self) -> Option<CancellationToken> {
        self.listener_cancel_token
    }

    /// The listener's task.
    pub closed spec fn task(self) -> Option<JoinHandle<()>> {
        self.listener
    }

    pub fn new(tid: TunnelId) -> (tunnel: Tunnel)
        ensures
            tunnel.id() == tid,
            !tunnel.listening(),
    {
        Tunnel { tid, remote_stream_tx: None, listener: None, listener_cancel_token: None }
    }

    pub fn tid(&self) -> (tid: TunnelId)
        ensures
            tid == self.id(),
    {
        self.tid
    }

    pub fn is_listening(&self) -> (listening: bool)
        ensures
            listening == self.listening(),
    {
        proof {
            use_type_invariant(self);
        }
        self.listener.is_some()
    }

    /// Starts listening with the handles of a freshly spawned listener.
    ///
    /// A tunnel listens once: if it already listens it is left as it was
    /// and the handles are given back.
    pub fn attach_listener(
        &mut self,
        remote_stream_tx: Sender<Vec<u8>>,
        listener_cancel_token: CancellationToken,
        listener: JoinHandle<()>,
    ) -> (rejected: Option<(Sender<Vec<u8>>, CancellationToken, JoinHandle<()>)>)
        ensures
            final(self).id() == old(self).id(),
            final(self).listening(),
            !old(self).listening() ==> final(self).sender() == Some(remote_stream_tx)
                && final(self).stop_token() == Some(listener_cancel_token)
                && final(self).task() == Some(listener),
            old(self).listening() ==> *final(self) == *old(self)
                && rejected == Some((remote_stream_tx, listener_cancel_token, listener)),
            !old(self).listening() ==> rejected is None,
    {
        proof {
            use_type_invariant(&*self);
        }
        if self.listener.is_some() {
            return Some((remote_stream_tx, listener_cancel_token, listener));
        }
        let tunnel = Tunnel {
            tid: self.tid,
            remote_stream_tx: Some(remote_stream_tx),
            listener_cancel_token: Some(listener_cancel_token),
            listener: Some(listener),
        };
        *self = tunnel;
        None
    }

    /// The sender that feeds the local stream, if the tunnel listens.
    pub fn remote_sender(&self) -> (sender: Option<&Sender<Vec<u8>>>)
        ensures
            sender is Some <==> self.listening(),
            sender matches Some(tx) ==> self.sender() == Some(*tx),
    {
        proof {
            use_type_invariant(self);
        }
        self.remote_stream_tx.as_ref()
    }

    /// A second sender on the channel that feeds the local stream.
    pub fn cloned_sender(&self) -> (sender: Option<Sender<Vec<u8>>>)
        ensures
            sender == self.sender(),
    {
        proof {
            use_type_invariant(self);
        }
        match &self.remote_stream_tx {
            Some(tx) => Some(tx.clone()),
            None => None,
        }
    }

    /// Takes the tunnel apart to stop its listener: the token to cancel
    /// and the task to abort once it had time to exit.
    pub fn shutdown(self) -> (handles: (Option<CancellationToken>, Option<JoinHandle<()>>))
        ensures
            handles == (self.stop_token(), self.task()),
            handles.0 is Some <==> self.listening(),
            handles.1 is Some <==> self.listening(),
    {
        proof {
            use_type_invariant(&self);
        }
        (self.listener_cancel_token, self.listener)
    }
}

} // verus!
