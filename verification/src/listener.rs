//! The listener of a tunnel.
//!
//! Two loops run side by side for a listening tunnel: one reads the local
//! TCP stream and ships every chunk to the peer as a `TcpPackage`, the other
//! writes what the peer sent into the local stream.  Both report what
//! happened to one `TunnelListener`, which answers with what to do next.
//! The first failure of either loop stops the listener; it then ships the
//! one `TcpClose` of the tunnel, with that failure as the reason, and asks
//! for nothing more.

use vstd::prelude::*;

use crate::defeat::{defeat_of_io_error, IoErrorKind, TunnelDefeat};
use crate::message::{ProxyMessage, TunnelId};

verus! {

/// The size of the buffer that the local stream is read into.
pub const READ_BUFFER_LEN: usize = 30000;

/// The message that tells the peer that a tunnel is gone, and why.
pub fn closing_message(tid: TunnelId, reason: TunnelDefeat) -> (message: ProxyMessage)
    ensures
        message == (ProxyMessage::TcpClose { tid, reason }),
{
    ProxyMessage::TcpClose { tid, reason }
}

/// The package that a chunk read from the local stream of tunnel `tid`
/// becomes; an empty read is the end of the stream and ships nothing.
pub open spec fn package_of_chunk(tid: TunnelId, chunk: Vec<u8>) -> Option<ProxyMessage> {
    if chunk@.len() == 0 {
        None
    } else {
        Some(ProxyMessage::TcpPackage { tid, body: chunk })
    }
}

/// Where a listener stands: its tunnel, and the reason it stopped, once it
/// has.
pub struct ListenerState {
    pub tid: TunnelId,
    pub stopped: Option<TunnelDefeat>,
}

/// What one of the two loops reports.
pub enum ListenerEvent {
    /// The listener's token was found cancelled.
    Cancelled,
    /// A read of the local stream: the bytes read, or the kind of failure.
    Read(Result<Vec<u8>, IoErrorKind>),
    /// Whether the package of the last chunk could be encoded.
    Encoded(bool),
    /// Whether the encoded package went out on the data channel.
    Sent(bool),
    /// What the channel from the peer gave.
    Received(Option<Vec<u8>>),
    /// The outcome of writing bytes of the peer to the local stream.
    Written(Result<(), IoErrorKind>),
}

/// What the loop that reported does next.
pub enum ListenerOutput {
    /// Encode this message and send it to the peer.  A `TcpClose` is the
    /// last thing the listener asks for: the loop then ends.
    Ship(ProxyMessage),
    /// Write these bytes to the local stream.
    Write(Vec<u8>),
    /// Nothing to do.
    Idle,
}

/// The listener stops for `reason` and ships the close of its tunnel.
pub open spec fn stop_for(state: ListenerState, reason: TunnelDefeat) -> (ListenerState, ListenerOutput) {
    (
        ListenerState { tid: state.tid, stopped: Some(reason) },
        ListenerOutput::Ship(ProxyMessage::TcpClose { tid: state.tid, reason }),
    )
}

/// One step of a listener: a stopped listener ignores every event; a
/// running one ships chunks as packages, writes what the peer sent, and
/// stops at the first cancellation, end of stream or failure.
pub open spec fn listener_next(state: ListenerState, event: ListenerEvent) -> (ListenerState, ListenerOutput) {
    if state.stopped is Some {
        (state, ListenerOutput::Idle)
    } else {
        match event {
            ListenerEvent::Cancelled => stop_for(state, TunnelDefeat::ConnectionClosed),
            ListenerEvent::Read(Err(kind)) => stop_for(state, defeat_of_io_error(kind)),
            ListenerEvent::Read(Ok(chunk)) => match package_of_chunk(state.tid, chunk) {
                Some(package) => (state, ListenerOutput::Ship(package)),
                None => stop_for(state, TunnelDefeat::ConnectionClosed),
            },
            ListenerEvent::Encoded(encoded) => if encoded {
                (state, ListenerOutput::Idle)
            } else {
                stop_for(state, TunnelDefeat::SerializationFailed)
            },
            ListenerEvent::Sent(sent) => if sent {
                (state, ListenerOutput::Idle)
            } else {
                stop_for(state, TunnelDefeat::WebrtcDatachannelSendFailed)
            },
            ListenerEvent::Received(Some(body)) => (state, ListenerOutput::Write(body)),
            ListenerEvent::Received(None) => (state, ListenerOutput::Idle),
            ListenerEvent::Written(Ok(())) => (state, ListenerOutput::Idle),
            ListenerEvent::Written(Err(kind)) => stop_for(state, defeat_of_io_error(kind)),
        }
    }
}

/// A listener that is told the given events in turn: where it ends up, and
/// what it answered to each event.
pub open spec fn run_listener(state: ListenerState, events: Seq<ListenerEvent>) -> (ListenerState, Seq<ListenerOutput>)
    decreases events.len(),
{
    if events.len() == 0 {
        (state, Seq::empty())
    } else {
        let (before, outputs) = run_listener(state, events.drop_last());
        let (after, output) = listener_next(before, events.last());
        (after, outputs.push(output))
    }
}

/// Whether an output ships the close of a tunnel.
pub open spec fn ships_close(output: ListenerOutput) -> bool {
    output matches ListenerOutput::Ship(ProxyMessage::TcpClose { .. })
}

/// The listener of one tunnel.
pub struct TunnelListener {
    tid: TunnelId,
    stopped: Option<TunnelDefeat>,
}

impl TunnelListener {
    pub closed spec fn state(self) -> ListenerState {
        ListenerState { tid: self.tid, stopped: self.stopped }
    }

    pub fn new(tid: TunnelId) -> (listener: TunnelListener)
        ensures
            listener.state() == (ListenerState { tid, stopped: None }),
    {
        TunnelListener { tid, stopped: None }
    }

    pub fn tid(&self) -> (tid: TunnelId)
        ensures
            tid == self.state().tid,
    {
        self.tid
    }

    /// `None` while the listener runs; the reason it stopped afterwards.
    pub fn defeat(&self) -> (defeat: Option<TunnelDefeat>)
        ensures
            defeat == self.state().stopped,
    {
        self.stopped
    }

    fn stop(&mut self, reason: TunnelDefeat) -> (output: ListenerOutput)
        ensures
            (final(self).state(), output) == stop_for(old(self).state(), reason),
    {
        self.stopped = Some(reason);
        ListenerOutput::Ship(closing_message(self.tid, reason))
    }

    /// Takes what a loop reports and tells it what to do next.
    pub fn step(&mut self, event: ListenerEvent) -> (output: ListenerOutput)
        ensures
            (final(self).state(), output) == listener_next(old(self).state(), event),
    {
        if self.stopped.is_some() {
            return ListenerOutput::Idle;
        }
        match event {
            ListenerEvent::Cancelled => self.stop(TunnelDefeat::ConnectionClosed),
            ListenerEvent::Read(Err(kind)) => self.stop(TunnelDefeat::from(kind)),
            ListenerEvent::Read(Ok(chunk)) => {
                if chunk.len() == 0 {
                    self.stop(TunnelDefeat::ConnectionClosed)
                } else {
                    ListenerOutput::Ship(ProxyMessage::TcpPackage { tid: self.tid, body: chunk })
                }
            },
            ListenerEvent::Encoded(encoded) => {
                if encoded {
                    ListenerOutput::Idle
                } else {
                    self.stop(TunnelDefeat::SerializationFailed)
                }
            },
            ListenerEvent::Sent(sent) => {
                if sent {
                    ListenerOutput::Idle
                } else {
                    self.stop(TunnelDefeat::WebrtcDatachannelSendFailed)
                }
            },
            ListenerEvent::Received(Some(body)) => ListenerOutput::Write(body),
            ListenerEvent::Received(None) => ListenerOutput::Idle,
            ListenerEvent::Written(Ok(())) => ListenerOutput::Idle,
            ListenerEvent::Written(Err(kind)) => self.stop(TunnelDefeat::from(kind)),
        }
    }
}

} // verus!
