use tokio::sync::mpsc;
use tokio_util::sync::CancellationToken;
use xrtc::defeat::TunnelDefeat;
use xrtc::error::ProxyError;
use xrtc::defeat::IoErrorKind;
use xrtc::listener::{ListenerEvent, ListenerOutput, TunnelListener};
use xrtc::message::{ProxyMessage, SocketAddress};
use xrtc::proxy::{AcceptTask, DialAction, DialTask, Handling, Proxy, DIAL_TIMEOUT_S};
use xrtc::transport::TransportError;
use xrtc::tunnel::Tunnel;

fn listening_tunnel(rt: &tokio::runtime::Runtime, tid: u128) -> (Tunnel, mpsc::Receiver<Vec<u8>>) {
    let (tx, rx) = mpsc::channel(8);
    let handle = rt.spawn(async {});
    let mut tunnel = Tunnel::new(tid);
    assert!(tunnel.attach_listener(tx, CancellationToken::new(), handle).is_none());
    (tunnel, rx)
}

#[test]
fn new_tunnel_does_not_listen() {
    let tunnel = Tunnel::new(12);
    assert_eq!(tunnel.tid(), 12);
    assert!(!tunnel.is_listening());
    assert!(tunnel.remote_sender().is_none());
    let (token, task) = tunnel.shutdown();
    assert!(token.is_none() && task.is_none());
}

#[test]
fn tunnel_listens_once() {
    let rt = tokio::runtime::Runtime::new().unwrap();
    let (mut tunnel, _rx) = listening_tunnel(&rt, 4);
    assert!(tunnel.is_listening());
    assert!(tunnel.remote_sender().is_some());
    let (tx2, _rx2) = mpsc::channel(8);
    let rejected = tunnel.attach_listener(tx2, CancellationToken::new(), rt.spawn(async {}));
    assert!(rejected.is_some());
    assert_eq!(tunnel.tid(), 4);
    let (token, task) = tunnel.shutdown();
    assert!(token.is_some() && task.is_some());
}

#[test]
fn package_for_unknown_tunnel_is_refused() {
    let mut proxy = Proxy::new();
    let h = proxy.handle_message(&ProxyMessage::TcpPackage { tid: 1, body: vec![1] }, true);
    assert!(matches!(h, Handling::Failed(TunnelDefeat::TunnelNotFound)));
}

#[test]
fn opened_tunnel_receives_packages() {
    let rt = tokio::runtime::Runtime::new().unwrap();
    let mut proxy = Proxy::new();
    let (tunnel, mut rx) = listening_tunnel(&rt, 77);
    assert!(proxy.open_tunnel(tunnel).is_none());
    let h = proxy.handle_message(&ProxyMessage::TcpPackage { tid: 77, body: vec![5, 6] }, false);
    match h {
        Handling::Forward { sender: Some(sender), body } => {
            assert_eq!(body, vec![5, 6]);
            rt.block_on(async { sender.send(body).await.unwrap() });
            assert_eq!(rt.block_on(rx.recv()), Some(vec![5, 6]));
        },
        _ => panic!("expected the package to be forwarded"),
    }
}

#[test]
fn package_for_tunnel_without_listener_is_dropped() {
    let mut proxy = Proxy::new();
    assert!(proxy.open_tunnel(Tunnel::new(3)).is_none());
    let h = proxy.handle_message(&ProxyMessage::TcpPackage { tid: 3, body: vec![1] }, true);
    assert!(matches!(h, Handling::Forward { sender: None, .. }));
}

#[test]
fn closed_tunnel_refuses_packages() {
    let rt = tokio::runtime::Runtime::new().unwrap();
    let mut proxy = Proxy::new();
    let (tunnel, _rx) = listening_tunnel(&rt, 5);
    proxy.open_tunnel(tunnel);
    let h = proxy.handle_message(&ProxyMessage::TcpClose { tid: 5, reason: TunnelDefeat::ConnectionClosed }, true);
    match h {
        Handling::Closed(Some(t)) => {
            assert_eq!(t.tid(), 5);
            assert!(t.is_listening());
        },
        _ => panic!("expected the tunnel to be removed"),
    }
    let again = proxy.handle_message(&ProxyMessage::TcpClose { tid: 5, reason: TunnelDefeat::Unknown }, true);
    assert!(matches!(again, Handling::Closed(None)));
    let h = proxy.handle_message(&ProxyMessage::TcpPackage { tid: 5, body: vec![1] }, true);
    assert!(matches!(h, Handling::Failed(TunnelDefeat::TunnelNotFound)));
}

#[test]
fn close_keeps_other_tunnels() {
    let mut proxy = Proxy::new();
    proxy.open_tunnel(Tunnel::new(1));
    proxy.open_tunnel(Tunnel::new(2));
    proxy.handle_message(&ProxyMessage::TcpClose { tid: 1, reason: TunnelDefeat::Unknown }, true);
    let h = proxy.handle_message(&ProxyMessage::TcpPackage { tid: 2, body: vec![] }, true);
    assert!(matches!(h, Handling::Forward { .. }));
}

#[test]
fn reopening_a_tunnel_hands_back_the_old_one() {
    let mut proxy = Proxy::new();
    assert!(proxy.open_tunnel(Tunnel::new(9)).is_none());
    let displaced = proxy.open_tunnel(Tunnel::new(9));
    assert_eq!(displaced.map(|t| t.tid()), Some(9));
}

#[test]
fn dial_needs_a_connection() {
    let mut proxy = Proxy::new();
    let addr = SocketAddress::V6 { segments: 1, port: 22, flowinfo: 0, scope_id: 0 };
    let h = proxy.handle_message(&ProxyMessage::TcpDial { tid: 10, addr }, false);
    assert!(matches!(h, Handling::Failed(TunnelDefeat::WebrtcConnectionNotFound)));
    let h = proxy.handle_message(&ProxyMessage::TcpDial { tid: 10, addr }, true);
    match h {
        Handling::Connect(task) => {
            assert_eq!(task.tid(), 10);
            assert_eq!(task.addr(), addr);
            assert_eq!(task.timeout_s(), DIAL_TIMEOUT_S);
            assert_eq!(task.timeout_s(), 10);
        },
        _ => panic!("expected a connect"),
    }
}

#[test]
fn dialling_unknown_connection_names_it() {
    let proxy = Proxy::new();
    match proxy.dial_tunnel("peer-1", false) {
        Err(ProxyError::ConnectionNotFound(cid)) => assert_eq!(cid, "peer-1"),
        _ => panic!("expected ConnectionNotFound"),
    }
}

#[test]
fn dialled_tunnels_get_fresh_v4_ids() {
    let proxy = Proxy::new();
    let a = proxy.dial_tunnel("peer", true).unwrap();
    let b = proxy.dial_tunnel("peer", true).unwrap();
    assert!(!a.is_listening());
    assert_ne!(a.tid(), b.tid());
    for t in [a.tid(), b.tid()] {
        assert_eq!((t >> 76) & 0xf, 4);
        assert_eq!((t >> 62) & 0x3, 2);
    }
}

#[test]
fn chunk_reaches_peer_tunnel_unchanged() {
    let rt = tokio::runtime::Runtime::new().unwrap();
    let mut listener = TunnelListener::new(31);
    let package = match listener.step(ListenerEvent::Read(Ok(vec![10, 20, 30]))) {
        ListenerOutput::Ship(package) => package,
        _ => panic!("a chunk becomes a package"),
    };

    let mut peer = Proxy::new();
    let (tunnel, mut rx) = listening_tunnel(&rt, 31);
    peer.open_tunnel(tunnel);
    match peer.handle_message(&package, true) {
        Handling::Forward { sender: Some(sender), body } => {
            rt.block_on(async { sender.send(body).await.unwrap() });
        },
        _ => panic!("expected the package to be forwarded"),
    }
    let received = rt.block_on(rx.recv());
    let mut writer = TunnelListener::new(31);
    match writer.step(ListenerEvent::Received(received)) {
        ListenerOutput::Write(bytes) => assert_eq!(bytes, vec![10, 20, 30]),
        _ => panic!("expected the bytes to be written"),
    }
}

#[test]
fn dial_opens_the_tunnel_then_announces_it() {
    let rt = tokio::runtime::Runtime::new().unwrap();
    let mut proxy = Proxy::new();
    let addr = SocketAddress::V4 { octets: 0x0a00_0001, port: 80 };
    let mut task = DialTask::new(addr);
    let tunnel = match task.on_looked_up(&proxy, "peer", true) {
        DialAction::StartListener(t) => t,
        _ => panic!("expected a new tunnel"),
    };
    assert!(!tunnel.is_listening());
    let tid = tunnel.tid();
    assert_eq!((tid >> 76) & 0xf, 4);
    let (tx, _rx) = mpsc::channel(8);
    let mut tunnel = tunnel;
    tunnel.attach_listener(tx, CancellationToken::new(), rt.spawn(async {}));
    let (next, displaced) = task.on_listening(&mut proxy, tunnel);
    assert!(displaced.is_none());
    match next {
        DialAction::Encode(ProxyMessage::TcpDial { tid: t, addr: a }) => {
            assert_eq!(t, tid);
            assert_eq!(a, addr);
        },
        _ => panic!("expected the dial to be encoded"),
    }
    let h = proxy.handle_message(&ProxyMessage::TcpPackage { tid, body: vec![1] }, true);
    assert!(matches!(h, Handling::Forward { sender: Some(_), .. }));
    match task.on_encoded(Ok(vec![1, 2])) {
        DialAction::Send(xrtc::message::XrtcMessage::Custom(bytes)) => assert_eq!(bytes, vec![1, 2]),
        _ => panic!("expected the dial to be sent"),
    }
    assert!(matches!(task.on_sent(Ok(())), DialAction::Finish(Ok(()))));
}

#[test]
fn dial_over_unknown_connection_fails() {
    let proxy = Proxy::new();
    let mut task = DialTask::new(SocketAddress::V4 { octets: 1, port: 1 });
    match task.on_looked_up(&proxy, "ghost", false) {
        DialAction::Finish(Err(ProxyError::ConnectionNotFound(cid))) => assert_eq!(cid, "ghost"),
        _ => panic!("expected ConnectionNotFound"),
    }
}

#[test]
fn dial_failures_after_opening() {
    let rt = tokio::runtime::Runtime::new().unwrap();
    let mut proxy = Proxy::new();
    let mut task = DialTask::new(SocketAddress::V4 { octets: 1, port: 1 });
    let mut tunnel = match task.on_looked_up(&proxy, "peer", true) {
        DialAction::StartListener(t) => t,
        _ => panic!("expected a new tunnel"),
    };
    let (tx, _rx) = mpsc::channel(8);
    tunnel.attach_listener(tx, CancellationToken::new(), rt.spawn(async {}));
    task.on_listening(&mut proxy, tunnel);
    let bad = bincode::deserialize::<u64>(&[1u8]).unwrap_err();
    assert!(matches!(task.on_encoded(Err(bad)), DialAction::Finish(Err(ProxyError::Bincode(_)))));

    let mut task = DialTask::new(SocketAddress::V4 { octets: 1, port: 1 });
    let mut tunnel = match task.on_looked_up(&proxy, "peer", true) {
        DialAction::StartListener(t) => t,
        _ => panic!("expected a new tunnel"),
    };
    let (tx, _rx) = mpsc::channel(8);
    tunnel.attach_listener(tx, CancellationToken::new(), rt.spawn(async {}));
    task.on_listening(&mut proxy, tunnel);
    task.on_encoded(Ok(vec![0]));
    assert!(matches!(
        task.on_sent(Err(TransportError::ConnectionNotFound("peer".to_string()))),
        DialAction::Finish(Err(ProxyError::TransportError(_)))
    ));
}

#[test]
fn package_goes_to_its_own_tunnel_only() {
    let rt = tokio::runtime::Runtime::new().unwrap();
    let mut proxy = Proxy::new();
    let (first, mut first_rx) = listening_tunnel(&rt, 1);
    let (second, mut second_rx) = listening_tunnel(&rt, 2);
    proxy.open_tunnel(first);
    proxy.open_tunnel(second);
    match proxy.handle_message(&ProxyMessage::TcpPackage { tid: 2, body: vec![8] }, true) {
        Handling::Forward { sender: Some(sender), body } => {
            rt.block_on(async { sender.send(body).await.unwrap() });
        },
        _ => panic!("expected the package to be forwarded"),
    }
    assert_eq!(second_rx.try_recv().ok(), Some(vec![8]));
    assert!(first_rx.try_recv().is_err());
}

#[test]
fn accepted_tunnel_is_opened_under_the_dialled_id() {
    let rt = tokio::runtime::Runtime::new().unwrap();
    let mut proxy = Proxy::new();
    let addr = SocketAddress::V4 { octets: 0x7f00_0001, port: 8080 };
    let task = match proxy.handle_message(&ProxyMessage::TcpDial { tid: 66, addr }, true) {
        Handling::Connect(task) => task,
        _ => panic!("expected a connect"),
    };
    let (stream, mut tunnel) = task.on_connected(Some(Ok("stream"))).unwrap();
    assert_eq!(stream, "stream");
    assert_eq!(tunnel.tid(), 66);
    assert!(!tunnel.is_listening());
    let (tx, mut rx) = mpsc::channel(8);
    tunnel.attach_listener(tx, CancellationToken::new(), rt.spawn(async {}));
    assert!(task.on_listening(&mut proxy, tunnel).is_none());
    match proxy.handle_message(&ProxyMessage::TcpPackage { tid: 66, body: vec![4, 2] }, true) {
        Handling::Forward { sender: Some(sender), body } => {
            rt.block_on(async { sender.send(body).await.unwrap() });
        },
        _ => panic!("expected the package to be forwarded"),
    }
    assert_eq!(rx.try_recv().ok(), Some(vec![4, 2]));
}

#[test]
fn failed_accepts_give_their_defeat() {
    let task = AcceptTask::new(7, SocketAddress::V4 { octets: 1, port: 2 }, 10);
    assert_eq!(task.tid(), 7);
    assert!(matches!(task.on_connected::<u8>(None), Err(TunnelDefeat::ConnectionTimeout)));
    assert!(matches!(
        task.on_connected::<u8>(Some(Err(IoErrorKind::ConnectionRefused))),
        Err(TunnelDefeat::ConnectionRefused)
    ));
    assert!(matches!(task.on_connected::<u8>(Some(Err(IoErrorKind::Other))), Err(TunnelDefeat::Unknown)));
}

#[test]
fn close_all_hands_back_every_tunnel() {
    let rt = tokio::runtime::Runtime::new().unwrap();
    let mut proxy = Proxy::new();
    let (tunnel, _rx) = listening_tunnel(&rt, 1);
    proxy.open_tunnel(tunnel);
    proxy.open_tunnel(Tunnel::new(2));
    let mut closed: Vec<(u128, bool)> = proxy.close_all().iter().map(|t| (t.tid(), t.is_listening())).collect();
    closed.sort();
    assert_eq!(closed, vec![(1, true), (2, false)]);
    assert!(proxy.close_all().is_empty());
    let h = proxy.handle_message(&ProxyMessage::TcpPackage { tid: 1, body: vec![1] }, true);
    assert!(matches!(h, Handling::Failed(TunnelDefeat::TunnelNotFound)));
}

#[test]
fn closed_tunnel_comes_back_with_its_own_token() {
    let rt = tokio::runtime::Runtime::new().unwrap();
    let mut proxy = Proxy::new();
    let (tx, _rx) = mpsc::channel(8);
    let token = CancellationToken::new();
    let mut tunnel = Tunnel::new(8);
    tunnel.attach_listener(tx, token.clone(), rt.spawn(async {}));
    proxy.open_tunnel(tunnel);
    match proxy.handle_message(&ProxyMessage::TcpClose { tid: 8, reason: TunnelDefeat::ConnectionReset }, true) {
        Handling::Closed(Some(removed)) => {
            let (stop, task) = removed.shutdown();
            stop.expect("a listening tunnel has a token").cancel();
            assert!(token.is_cancelled());
            assert!(task.is_some());
        },
        _ => panic!("expected the tunnel to be removed"),
    }
}
