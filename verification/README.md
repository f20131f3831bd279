# xrtc

xrtc carries TCP connections over WebRTC data channels. A client peer
accepts local TCP connections and tunnels each one, through a data channel,
to a server peer, which opens the TCP connection to the target and pumps the
bytes back. The peers find each other through a small HTTP signalling
service that exchanges SDP offers and answers.

Layout:

- `src/` is the verified library. It decides: how the proxy protocol
  (`TcpDial`, `TcpPackage`, `TcpClose`) is handled and answered, which
  tunnels are open, why a tunnel stopped, how messages are routed to
  connections, and how the signalling requests proceed and fail. Every
  step that waits on the network is returned to the caller as an action or
  a task (dialling, accepting a dialled tunnel, answering a message, the
  two loops of a tunnel's listener), and its outcome comes back to the
  library as an event.
- `app/` is the runtime around it: the command line, tokio tasks, sockets,
  WebRTC calls, the bincode encodings and JSON bodies of library types,
  and the axum service. The SDP offers and answers are read and written as
  JSON by the library itself.
- `tests/` exercises the library on concrete values.
