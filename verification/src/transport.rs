//! The connections of a peer and the routing of messages to them.

use vstd::prelude::*;
use vstd::string::to_string_from_display_ensures;

use std::sync::Arc;

use dashmap::DashMap;
use webrtc::api::API;
use webrtc::data_channel::RTCDataChannel;
use webrtc::peer_connection::configuration::RTCConfiguration;
use webrtc::peer_connection::sdp::session_description::RTCSessionDescription;
use webrtc::peer_connection::RTCPeerConnection;

verus! {

#[derive(Debug)]
pub enum TransportError {
    Io(std::io::Error),
    Webrtc(webrtc::Error),
    Bincode(bincode::Error),
    WebrtcLocalSdpGenerationError,
    ConnectionNotFound(String),
}

impl TransportError {
    /// Whether `text` is what the error says.  The text of an outside error
    /// is what its `Display` shows, which this library does not state.
    pub open spec fn describes(self, text: Seq<char>) -> bool {
        match self {
            TransportError::Io(e) => exists|shown: String|
                #[trigger] to_string_from_display_ensures::<std::io::Error>(&e, shown)
                    && text == "IO error: "@ + shown@,
            TransportError::Webrtc(e) => exists|shown: String|
                #[trigger] to_string_from_display_ensures::<webrtc::Error>(&e, shown)
                    && text == "WebRTC error: "@ + shown@,
            TransportError::Bincode(e) => exists|shown: String|
                #[trigger] to_string_from_display_ensures::<bincode::Error>(&e, shown)
                    && text == "Bincode error: "@ + shown@,
            TransportError::WebrtcLocalSdpGenerationError => text == "WebRTC local SDP generation error"@,
            TransportError::ConnectionNotFound(cid) => text == not_found_text(cid@),
        }
    }

    /// The text of the error.
    pub fn message(&self) -> (text: String)
        ensures
            self.describes(text@),
    {
        match self {
            TransportError::Io(e) => {
                let shown = e.to_string();
                let mut text = String::from_str("IO error: ");
                text.append(shown.as_str());
                text
            },
            TransportError::Webrtc(e) => {
                let shown = e.to_string();
                let mut text = String::from_str("WebRTC error: ");
                text.append(shown.as_str());
                text
            },
            TransportError::Bincode(e) => {
                let shown = e.to_string();
                let mut text = String::from_str("Bincode error: ");
                text.append(shown.as_str());
                text
            },
            TransportError::WebrtcLocalSdpGenerationError => String::from_str("WebRTC local SDP generation error"),
            TransportError::ConnectionNotFound(cid) => not_found_message(cid.as_str()),
        }
    }
}

/// What is said of a connection id that no connection is registered under.
pub open spec fn not_found_text(cid: Seq<char>) -> Seq<char> {
    "Connection "@ + cid + " not found, should handshake first"@
}

/// The text for a connection id that no connection is registered under.
pub fn not_found_message(cid: &str) -> (text: String)
    ensures
        text@ == not_found_text(cid@),
{
    let mut text = String::from_str("Connection ");
    text.append(cid);
    text.append(" not found, should handshake first");
    text
}

/// What makes up a connection: the peer connection and its data channel.
pub struct ConnectionInner {
    webrtc_conn: RTCPeerConnection,
    webrtc_data_channel: Arc<RTCDataChannel>,
}

/// A connection to a peer; copies share the same peer connection.
pub struct Connection {
    inner: Arc<ConnectionInner>,
}

impl Connection {
    pub closed spec fn peer(self) -> RTCPeerConnection {
        self.inner.webrtc_conn
    }

    pub closed spec fn channel(self) -> Arc<RTCDataChannel> {
        self.inner.webrtc_data_channel
    }

    pub fn new(webrtc_conn: RTCPeerConnection, webrtc_data_channel: Arc<RTCDataChannel>) -> (conn: Connection)
        ensures
            conn.peer() == webrtc_conn,
            conn.channel() == webrtc_data_channel,
    {
        Connection { inner: Arc::new(ConnectionInner { webrtc_conn, webrtc_data_channel }) }
    }

    /// Another handle on the same connection.
    pub fn share(&self) -> (conn: Connection)
        ensures
            conn == *self,
    {
        Connection { inner: self.inner.clone() }
    }

    pub fn peer_connection(&self) -> (peer: &RTCPeerConnection)
        ensures
            *peer == self.peer(),
    {
        &self.inner.webrtc_conn
    }

    pub fn data_channel(&self) -> (channel: &Arc<RTCDataChannel>)
        ensures
            *channel == self.channel(),
    {
        &self.inner.webrtc_data_channel
    }

    /// The local description once ICE gathering has completed: a peer
    /// connection without one could not generate its SDP.
    pub fn gathered(local_description: Option<RTCSessionDescription>) -> (sdp: Result<RTCSessionDescription, TransportError>)
        ensures
            match local_description {
                Some(desc) => sdp == Ok::<RTCSessionDescription, TransportError>(desc),
                None => sdp matches Err(TransportError::WebrtcLocalSdpGenerationError),
            },
    {
        match local_description {
            Some(desc) => Ok(desc),
            None => Err(TransportError::WebrtcLocalSdpGenerationError),
        }
    }
}

/// The connections of a transport by connection id.
pub type ConnectionTable = DashMap<String, Connection>;

/// Connections by connection id.
pub type Connections = Map<Seq<char>, Connection>;

/// The connection that a message for `cid` goes out on, if any.
pub open spec fn lookup(connections: Connections, cid: Seq<char>) -> Option<Connection> {
    if connections.contains_key(cid) {
        Some(connections[cid])
    } else {
        None
    }
}

/// The connections once `conn` is registered under `cid`.
pub open spec fn registered(connections: Connections, cid: Seq<char>, conn: Connection) -> Connections {
    connections.insert(cid, conn)
}

/// The connections that a `DashMap` of connections holds, by id.
pub uninterp spec fn connection_table(map: ConnectionTable) -> Connections;

/// `DashMap::new`: an empty map.
#[verifier::external_body]
fn new_connection_table() -> (table: ConnectionTable)
    ensures
        connection_table(table) == Connections::empty(),
{
    DashMap::new()
}

/// `DashMap::insert`: the connection now stands under `cid`, in place of
/// any connection that stood there.  (`DashMap` inserts through a shared
/// reference; the map is passed mutably so that its contents can be stated
/// before and after.)
#[verifier::external_body]
fn connection_table_insert(table: &mut ConnectionTable, cid: &str, conn: Connection)
    ensures
        connection_table(*final(table)) == connection_table(*old(table)).insert(cid@, conn),
{
    table.insert(cid.to_string(), conn);
}

/// `DashMap::get`: another handle, taken with `Connection::share`, on the
/// connection under `cid`.
#[verifier::external_body]
fn connection_table_get(table: &ConnectionTable, cid: &str) -> (found: Option<Connection>)
    ensures
        found == lookup(connection_table(*table), cid@),
{
    table.get(cid).map(|entry| entry.value().share())
}

/// `APIBuilder::new().build()`: the WebRTC API with default engines.
#[verifier::external_body]
fn build_webrtc_api() -> API {
    webrtc::api::APIBuilder::new().build()
}

/// The configuration that `RTCConfiguration` takes with one ICE server
/// entry whose URLs are the given ones, every other setting at its default.
pub uninterp spec fn ice_config_of(urls: Seq<String>) -> RTCConfiguration;

/// Builds an `RTCConfiguration` whose one `RTCIceServer` has the given URLs,
/// with `Default` for all the rest; the result is named by the URLs.
#[verifier::external_body]
fn ice_configuration(ice_servers: Vec<String>) -> (config: RTCConfiguration)
    ensures
        config == ice_config_of(ice_servers@),
{
    RTCConfiguration {
        ice_servers: vec![webrtc::ice_transport::ice_server::RTCIceServer {
            urls: ice_servers,
            ..Default::default()
        }],
        ..Default::default()
    }
}

/// The WebRTC transport of a peer: how to make peer connections, and the
/// connections made so far.  Connections are registered through
/// `&mut self`; a runtime that shares a transport puts it behind a lock.
pub struct Transport {
    webrtc_api: Arc<API>,
    webrtc_config: RTCConfiguration,
    connections: ConnectionTable,
}

impl Transport {
    /// The connections of the transport, by id.
    pub closed spec fn connections(self) -> Connections {
        connection_table(self.connections)
    }

    pub fn new(ice_servers: Vec<String>) -> (transport: Transport)
        ensures
            transport.connections() == Connections::empty(),
            transport.config() == ice_config_of(ice_servers@),
    {
        Transport {
            webrtc_api: Arc::new(build_webrtc_api()),
            webrtc_config: ice_configuration(ice_servers),
            connections: new_connection_table(),
        }
    }

    /// The WebRTC API that new peer connections are made with.
    pub closed spec fn api(self) -> Arc<API> {
        self.webrtc_api
    }

    /// The configuration that new peer connections are made with.
    pub closed spec fn config(self) -> RTCConfiguration {
        self.webrtc_config
    }

    pub fn webrtc_api(&self) -> (api: &Arc<API>)
        ensures
            *api == self.api(),
    {
        &self.webrtc_api
    }

    pub fn webrtc_config(&self) -> (config: &RTCConfiguration)
        ensures
            *config == self.config(),
    {
        &self.webrtc_config
    }

    pub fn get_connection(&self, cid: &str) -> (found: Option<Connection>)
        ensures
            found == lookup(self.connections(), cid@),
    {
        connection_table_get(&self.connections, cid)
    }

    pub fn register_connection(&mut self, cid: &str, conn: Connection)
        ensures
            final(self).connections() == registered(old(self).connections(), cid@, conn),
            final(self).api() == old(self).api(),
            final(self).config() == old(self).config(),
    {
        connection_table_insert(&mut self.connections, cid, conn);
    }

    /// The connection that a message for `cid` goes out on: a connection
    /// that was never made is an error that names it.
    pub fn route(&self, cid: &str) -> (conn: Result<Connection, TransportError>)
        ensures
            match lookup(self.connections(), cid@) {
                Some(c) => conn == Ok::<Connection, TransportError>(c),
                None => conn matches Err(TransportError::ConnectionNotFound(c)) && c@ == cid@,
            },
    {
        match connection_table_get(&self.connections, cid) {
            Some(conn) => Ok(conn),
            None => Err(TransportError::ConnectionNotFound(cid.to_owned())),
        }
    }
}

} // verus!
