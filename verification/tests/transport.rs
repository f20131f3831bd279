use std::sync::Arc;

use xrtc::transport::{Connection, Transport, TransportError};

fn new_connection(rt: &tokio::runtime::Runtime, transport: &Transport) -> Connection {
    let api = transport.webrtc_api().clone();
    let config = transport.webrtc_config().clone();
    rt.block_on(async move {
        let pc = api.new_peer_connection(config).await.unwrap();
        let dc = pc.create_data_channel("xrtc", None).await.unwrap();
        Connection::new(pc, dc)
    })
}

#[test]
fn unknown_connection_is_not_routed() {
    let transport = Transport::new(vec!["stun:stun.l.google.com:19302".to_string()]);
    assert!(transport.get_connection("nobody").is_none());
    match transport.route("nobody") {
        Err(TransportError::ConnectionNotFound(cid)) => assert_eq!(cid, "nobody"),
        _ => panic!("expected ConnectionNotFound"),
    }
}

#[test]
fn registered_connection_is_routed() {
    let rt = tokio::runtime::Runtime::new().unwrap();
    let mut transport = Transport::new(vec!["stun:stun.l.google.com:19302".to_string()]);
    let conn = new_connection(&rt, &transport);
    let channel = conn.data_channel().clone();
    transport.register_connection("peer-a", conn);
    let routed = transport.route("peer-a").unwrap();
    assert!(Arc::ptr_eq(routed.data_channel(), &channel));
    assert!(transport.get_connection("peer-a").is_some());
    assert!(transport.get_connection("peer-b").is_none());
}

#[test]
fn missing_local_description_is_an_error() {
    assert!(matches!(Connection::gathered(None), Err(TransportError::WebrtcLocalSdpGenerationError)));
}

#[test]
fn gathered_local_description_is_the_sdp() {
    let mut desc = webrtc::peer_connection::sdp::session_description::RTCSessionDescription::default();
    desc.sdp = "v=0".to_string();
    match Connection::gathered(Some(desc)) {
        Ok(d) => assert_eq!(d.sdp, "v=0"),
        Err(_) => panic!("expected the description"),
    }
}

#[test]
fn new_transport_configures_the_given_ice_servers() {
    let urls = vec!["stun:a.example:3478".to_string(), "turn:b.example:3478".to_string()];
    let transport = Transport::new(urls.clone());
    let config = transport.webrtc_config();
    assert_eq!(config.ice_servers.len(), 1);
    assert_eq!(config.ice_servers[0].urls, urls);
    assert_eq!(config.ice_servers[0].username, "");
    assert!(config.certificates.is_empty());
}

#[test]
fn unknown_connection_text_asks_for_a_handshake() {
    let transport = Transport::new(vec![]);
    match transport.route("c1") {
        Err(e) => assert_eq!(e.message(), "Connection c1 not found, should handshake first"),
        Ok(_) => panic!("expected ConnectionNotFound"),
    }
    assert_eq!(
        TransportError::WebrtcLocalSdpGenerationError.message(),
        "WebRTC local SDP generation error"
    );
}

#[test]
fn outside_error_texts_carry_their_display() {
    let io = std::io::Error::new(std::io::ErrorKind::Other, "boom");
    assert_eq!(TransportError::Io(io).message(), "IO error: boom");
    let bad = bincode::deserialize::<u64>(&[1u8]).unwrap_err();
    let shown = bad.to_string();
    assert_eq!(TransportError::Bincode(bad).message(), format!("Bincode error: {shown}"));
    let webrtc = webrtc::Error::ErrConnectionClosed;
    let shown = webrtc.to_string();
    assert_eq!(TransportError::Webrtc(webrtc).message(), format!("WebRTC error: {shown}"));
}
