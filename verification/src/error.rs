//! Errors of the proxy backend.

use vstd::prelude::*;

use vstd::string::to_string_from_display_ensures;

use crate::defeat::{defeat_name, TunnelDefeat};
use crate::transport::{self, not_found_message, not_found_text};

verus! {

#[derive(Debug)]
pub enum ProxyError {
    Io(std::io::Error),
    Bincode(bincode::Error),
    TransportError(transport::TransportError),
    ConnectionNotFound(String),
    TunnelError(TunnelDefeat),
}

impl ProxyError {
    /// Whether `text` is what the error says.  The text of an outside error
    /// is what its `Display` shows, which this library does not state.
    pub open spec fn describes(self, text: Seq<char>) -> bool {
        match self {
            ProxyError::Io(e) => exists|shown: String|
                #[trigger] to_string_from_display_ensures::<std::io::Error>(&e, shown)
                    && text == "IO error: "@ + shown@,
            ProxyError::Bincode(e) => exists|shown: String|
                #[trigger] to_string_from_display_ensures::<bincode::Error>(&e, shown)
                    && text == "Bincode error: "@ + shown@,
            ProxyError::TransportError(e) => exists|inner: Seq<char>|
                #[trigger] e.describes(inner) && text == "Transport error: "@ + inner,
            ProxyError::ConnectionNotFound(cid) => text == not_found_text(cid@),
            ProxyError::TunnelError(defeat) => text == "Tunnel error: "@ + defeat_name(defeat),
        }
    }

    /// The text of the error.
    pub fn message(&self) -> (text: String)
        ensures
            self.describes(text@),
    {
        match self {
            ProxyError::Io(e) => {
                let shown = e.to_string();
                let mut text = String::from_str("IO error: ");
                text.append(shown.as_str());
                text
            },
            ProxyError::Bincode(e) => {
                let shown = e.to_string();
                let mut text = String::from_str("Bincode error: ");
                text.append(shown.as_str());
                text
            },
            ProxyError::TransportError(e) => {
                let inner = e.message();
                let mut text = String::from_str("Transport error: ");
                text.append(inner.as_str());
                text
            },
            ProxyError::ConnectionNotFound(cid) => not_found_message(cid.as_str()),
            ProxyError::TunnelError(defeat) => {
                let mut text = String::from_str("Tunnel error: ");
                text.append(defeat.name());
                text
            },
        }
    }
}

impl From<TunnelDefeat> for ProxyError {
    fn from(defeat: TunnelDefeat) -> (err: ProxyError) {
        ProxyError::TunnelError(defeat)
    }
}

impl vstd::std_specs::convert::FromSpecImpl<TunnelDefeat> for ProxyError {
    open spec fn obeys_from_spec() -> bool {
        true
    }

    open spec fn from_spec(defeat: TunnelDefeat) -> ProxyError {
        ProxyError::TunnelError(defeat)
    }
}

} // verus!
