use xrtc::defeat::{IoErrorKind, TunnelDefeat};
use xrtc::listener::{closing_message, ListenerEvent, ListenerOutput, TunnelListener};
use xrtc::message::ProxyMessage;

fn expect_close(output: ListenerOutput, tid: u128, reason: TunnelDefeat) {
    match output {
        ListenerOutput::Ship(ProxyMessage::TcpClose { tid: t, reason: r }) => {
            assert_eq!(t, tid);
            assert_eq!(r, reason);
        },
        _ => panic!("expected the close of the tunnel"),
    }
}

#[test]
fn read_chunk_becomes_package_of_the_tunnel() {
    let mut listener = TunnelListener::new(11);
    match listener.step(ListenerEvent::Read(Ok(vec![1, 2, 3]))) {
        ListenerOutput::Ship(ProxyMessage::TcpPackage { tid, body }) => {
            assert_eq!(tid, 11);
            assert_eq!(body, vec![1, 2, 3]);
        },
        _ => panic!("expected a package"),
    }
    assert_eq!(listener.defeat(), None);
    assert_eq!(listener.tid(), 11);
}

#[test]
fn end_of_local_stream_closes_the_tunnel() {
    let mut listener = TunnelListener::new(1);
    expect_close(listener.step(ListenerEvent::Read(Ok(Vec::new()))), 1, TunnelDefeat::ConnectionClosed);
    assert_eq!(listener.defeat(), Some(TunnelDefeat::ConnectionClosed));
}

#[test]
fn read_failure_stops_with_its_kind() {
    let mut listener = TunnelListener::new(1);
    expect_close(
        listener.step(ListenerEvent::Read(Err(IoErrorKind::ConnectionReset))),
        1,
        TunnelDefeat::ConnectionReset,
    );
    let mut listener = TunnelListener::new(2);
    expect_close(listener.step(ListenerEvent::Read(Err(IoErrorKind::Other))), 2, TunnelDefeat::Unknown);
}

#[test]
fn stopped_listener_asks_for_nothing_more() {
    let mut listener = TunnelListener::new(1);
    expect_close(listener.step(ListenerEvent::Sent(false)), 1, TunnelDefeat::WebrtcDatachannelSendFailed);
    assert!(matches!(listener.step(ListenerEvent::Read(Ok(vec![1]))), ListenerOutput::Idle));
    assert!(matches!(listener.step(ListenerEvent::Encoded(false)), ListenerOutput::Idle));
    assert!(matches!(listener.step(ListenerEvent::Cancelled), ListenerOutput::Idle));
    assert!(matches!(listener.step(ListenerEvent::Received(Some(vec![2]))), ListenerOutput::Idle));
    assert!(matches!(
        listener.step(ListenerEvent::Written(Err(IoErrorKind::NotConnected))),
        ListenerOutput::Idle
    ));
    assert_eq!(listener.defeat(), Some(TunnelDefeat::WebrtcDatachannelSendFailed));
}

#[test]
fn encoding_failure_stops_the_listener() {
    let mut listener = TunnelListener::new(1);
    assert!(matches!(listener.step(ListenerEvent::Encoded(true)), ListenerOutput::Idle));
    assert!(matches!(listener.step(ListenerEvent::Sent(true)), ListenerOutput::Idle));
    assert_eq!(listener.defeat(), None);
    expect_close(listener.step(ListenerEvent::Encoded(false)), 1, TunnelDefeat::SerializationFailed);
}

#[test]
fn cancelled_listener_closes_the_connection() {
    let mut listener = TunnelListener::new(3);
    expect_close(listener.step(ListenerEvent::Cancelled), 3, TunnelDefeat::ConnectionClosed);
}

#[test]
fn received_bytes_are_written_unchanged() {
    let mut listener = TunnelListener::new(5);
    match listener.step(ListenerEvent::Received(Some(vec![7, 7]))) {
        ListenerOutput::Write(bytes) => assert_eq!(bytes, vec![7, 7]),
        _ => panic!("expected a write"),
    }
    assert!(matches!(listener.step(ListenerEvent::Received(None)), ListenerOutput::Idle));
    assert!(matches!(listener.step(ListenerEvent::Written(Ok(()))), ListenerOutput::Idle));
    assert_eq!(listener.defeat(), None);
}

#[test]
fn write_failure_stops_the_listener_once() {
    let mut listener = TunnelListener::new(5);
    expect_close(
        listener.step(ListenerEvent::Written(Err(IoErrorKind::NotConnected))),
        5,
        TunnelDefeat::NotConnected,
    );
    assert!(matches!(
        listener.step(ListenerEvent::Written(Err(IoErrorKind::ConnectionAborted))),
        ListenerOutput::Idle
    ));
    assert_eq!(listener.defeat(), Some(TunnelDefeat::NotConnected));
}

#[test]
fn a_run_ships_own_packages_then_one_close_last() {
    let mut listener = TunnelListener::new(42);
    let events = vec![
        ListenerEvent::Read(Ok(vec![1])),
        ListenerEvent::Encoded(true),
        ListenerEvent::Sent(true),
        ListenerEvent::Received(Some(vec![9])),
        ListenerEvent::Written(Ok(())),
        ListenerEvent::Read(Ok(vec![2, 3])),
        ListenerEvent::Written(Err(IoErrorKind::ConnectionReset)),
        ListenerEvent::Sent(false),
        ListenerEvent::Read(Ok(vec![4])),
        ListenerEvent::Cancelled,
    ];
    let outputs: Vec<ListenerOutput> = events.into_iter().map(|e| listener.step(e)).collect();
    let mut closes = 0;
    let mut last_request = 0;
    for (i, output) in outputs.iter().enumerate() {
        match output {
            ListenerOutput::Ship(m) => {
                assert_eq!(m.tid(), 42);
                assert!(!matches!(m, ProxyMessage::TcpDial { .. }));
                if matches!(m, ProxyMessage::TcpClose { .. }) {
                    closes += 1;
                }
                last_request = i;
            },
            ListenerOutput::Write(_) => last_request = i,
            ListenerOutput::Idle => {},
        }
    }
    assert_eq!(closes, 1);
    assert_eq!(last_request, 6);
    assert!(matches!(
        &outputs[6],
        ListenerOutput::Ship(ProxyMessage::TcpClose { reason: TunnelDefeat::ConnectionReset, .. })
    ));
    assert_eq!(listener.defeat(), Some(TunnelDefeat::ConnectionReset));
}

#[test]
fn closing_message_names_tunnel_and_reason() {
    match closing_message(9, TunnelDefeat::ConnectionTimeout) {
        ProxyMessage::TcpClose { tid, reason } => {
            assert_eq!(tid, 9);
            assert_eq!(reason, TunnelDefeat::ConnectionTimeout);
        },
        _ => panic!("expected a close"),
    }
}
