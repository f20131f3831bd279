//! Reasons for which a tunnel is torn down.

use vstd::prelude::*;

verus! {

/// The kinds of socket failure that the proxy tells apart.
///
/// Every other kind of I/O failure is reported as `Other`.
#[derive(Clone, Copy, Debug, PartialEq, Eq, Structural)]
pub enum IoErrorKind {
    ConnectionRefused,
    ConnectionAborted,
    ConnectionReset,
    NotConnected,
    Other,
}

/// Why a tunnel was closed or could not be opened.
#[derive(Clone, Copy, Debug, PartialEq, Eq, Structural)]
pub enum TunnelDefeat {
    NoReason,
    ConnectionTimeout,
    ConnectionRefused,
    ConnectionAborted,
    ConnectionReset,
    NotConnected,
    ConnectionClosed,
    WebrtcConnectionNotFound,
    WebrtcDatachannelSendFailed,
    TunnelNotFound,
    SerializationFailed,
    Unknown,
}

/// The name of a defeat, as the protocol's reasons are called; the absence
/// of a reason is called `None`.
pub open spec fn defeat_name(defeat: TunnelDefeat) -> Seq<char> {
    match defeat {
        TunnelDefeat::NoReason => "None"@,
        TunnelDefeat::ConnectionTimeout => "ConnectionTimeout"@,
        TunnelDefeat::ConnectionRefused => "ConnectionRefused"@,
        TunnelDefeat::ConnectionAborted => "ConnectionAborted"@,
        TunnelDefeat::ConnectionReset => "ConnectionReset"@,
        TunnelDefeat::NotConnected => "NotConnected"@,
        TunnelDefeat::ConnectionClosed => "ConnectionClosed"@,
        TunnelDefeat::WebrtcConnectionNotFound => "WebrtcConnectionNotFound"@,
        TunnelDefeat::WebrtcDatachannelSendFailed => "WebrtcDatachannelSendFailed"@,
        TunnelDefeat::TunnelNotFound => "TunnelNotFound"@,
        TunnelDefeat::SerializationFailed => "SerializationFailed"@,
        TunnelDefeat::Unknown => "Unknown"@,
    }
}

impl TunnelDefeat {
    /// The name of the defeat.
    pub fn name(&self) -> (name: &'static str)
        ensures
            name@ == defeat_name(*self),
    {
        match self {
            TunnelDefeat::NoReason => "None",
            TunnelDefeat::ConnectionTimeout => "ConnectionTimeout",
            TunnelDefeat::ConnectionRefused => "ConnectionRefused",
            TunnelDefeat::ConnectionAborted => "ConnectionAborted",
            TunnelDefeat::ConnectionReset => "ConnectionReset",
            TunnelDefeat::NotConnected => "NotConnected",
            TunnelDefeat::ConnectionClosed => "ConnectionClosed",
            TunnelDefeat::WebrtcConnectionNotFound => "WebrtcConnectionNotFound",
            TunnelDefeat::WebrtcDatachannelSendFailed => "WebrtcDatachannelSendFailed",
            TunnelDefeat::TunnelNotFound => "TunnelNotFound",
            TunnelDefeat::SerializationFailed => "SerializationFailed",
            TunnelDefeat::Unknown => "Unknown",
        }
    }
}

/// The defeat that a socket failure of the given kind stands for.
pub open spec fn defeat_of_io_error(kind: IoErrorKind) -> TunnelDefeat {
    match kind {
        IoErrorKind::ConnectionRefused => TunnelDefeat::ConnectionRefused,
        IoErrorKind::ConnectionAborted => TunnelDefeat::ConnectionAborted,
        IoErrorKind::ConnectionReset => TunnelDefeat::ConnectionReset,
        IoErrorKind::NotConnected => TunnelDefeat::NotConnected,
        IoErrorKind::Other => TunnelDefeat::Unknown,
    }
}

impl From<IoErrorKind> for TunnelDefeat {
    fn from(kind: IoErrorKind) -> (defeat: TunnelDefeat) {
        match kind {
            IoErrorKind::ConnectionRefused => TunnelDefeat::ConnectionRefused,
            IoErrorKind::ConnectionAborted => TunnelDefeat::ConnectionAborted,
            IoErrorKind::ConnectionReset => TunnelDefeat::ConnectionReset,
            IoErrorKind::NotConnected => TunnelDefeat::NotConnected,
            IoErrorKind::Other => TunnelDefeat::Unknown,
        }
    }
}

impl vstd::std_specs::convert::FromSpecImpl<IoErrorKind> for TunnelDefeat {
    open spec fn obeys_from_spec() -> bool {
        true
    }

    open spec fn from_spec(kind: IoErrorKind) -> TunnelDefeat {
        defeat_of_io_error(kind)
    }
}

} // verus!
