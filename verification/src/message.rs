//! The messages that two xrtc peers exchange.

use vstd::prelude::*;

use crate::defeat::TunnelDefeat;
use crate::error::ProxyError;

verus! {

/// Identifies a tunnel on both peers: the 128 bits of a UUID.
pub type TunnelId = u128;

/// The address that a dialled tunnel connects to on the far peer.
#[derive(Clone, Copy, Debug, PartialEq, Eq, Structural)]
pub enum SocketAddress {
    V4 { octets: u32, port: u16 },
    V6 { segments: u128, port: u16, flowinfo: u32, scope_id: u32 },
}

/// The proxy protocol.
///
/// `TcpDial` asks the far peer to open a TCP connection for a new tunnel,
/// `TcpPackage` carries bytes of a tunnel, and `TcpClose` tears a tunnel
/// down and says why.
#[derive(Clone, Debug)]
pub enum ProxyMessage {
    TcpDial { tid: TunnelId, addr: SocketAddress },
    TcpClose { tid: TunnelId, reason: TunnelDefeat },
    TcpPackage { tid: TunnelId, body: Vec<u8> },
}

impl ProxyMessage {
    /// The tunnel that a message belongs to.
    pub open spec fn tunnel(self) -> TunnelId {
        match self {
            ProxyMessage::TcpDial { tid, .. } => tid,
            ProxyMessage::TcpClose { tid, .. } => tid,
            ProxyMessage::TcpPackage { tid, .. } => tid,
        }
    }

    pub fn tid(&self) -> (tid: TunnelId)
        ensures
            tid == self.tunnel(),
    {
        match self {
            ProxyMessage::TcpDial { tid, .. } => *tid,
            ProxyMessage::TcpClose { tid, .. } => *tid,
            ProxyMessage::TcpPackage { tid, .. } => *tid,
        }
    }
}

/// The envelope of every data channel message: an opaque payload that the
/// backend of the connection interprets.
#[derive(Clone, Debug)]
pub enum XrtcMessage {
    Custom(Vec<u8>),
}

impl XrtcMessage {
    pub open spec fn bytes(self) -> Seq<u8> {
        match self {
            XrtcMessage::Custom(bytes) => bytes@,
        }
    }

    /// The payload handed to the backend of the connection.
    pub fn payload(&self) -> (payload: &Vec<u8>)
        ensures
            payload@ == self.bytes(),
    {
        match self {
            XrtcMessage::Custom(bytes) => bytes,
        }
    }
}

/// Frames an encoded proxy message as a data channel message.
pub open spec fn framed(encoded: Result<Vec<u8>, bincode::Error>) -> Result<XrtcMessage, ProxyError> {
    match encoded {
        Ok(bytes) => Ok(XrtcMessage::Custom(bytes)),
        Err(e) => Err(ProxyError::Bincode(e)),
    }
}

impl XrtcMessage {
    /// The data channel message that carries an encoded proxy message.
    pub fn from_encoded(encoded: Result<Vec<u8>, bincode::Error>) -> (framed_message: Result<XrtcMessage, ProxyError>)
        ensures
            framed_message == framed(encoded),
    {
        match encoded {
            Ok(bytes) => Ok(XrtcMessage::Custom(bytes)),
            Err(e) => Err(ProxyError::Bincode(e)),
        }
    }
}

} // verus!
