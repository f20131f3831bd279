//! The proxy backend: the table of tunnels and the handling of the proxy
//! protocol.

use vstd::prelude::*;

use dashmap::DashMap;
use tokio::sync::mpsc::Sender;

use crate::defeat::{defeat_of_io_error, IoErrorKind, TunnelDefeat};
use crate::error::ProxyError;
use crate::message::{framed, ProxyMessage, SocketAddress, TunnelId, XrtcMessage};
use crate::transport::TransportError;
use crate::tunnel::Tunnel;

verus! {

/// How long the far peer waits for the TCP connection of a dialled tunnel,
/// in seconds.
pub const DIAL_TIMEOUT_S: u64 = 10;

/// Open tunnels by id, each with the sender that feeds its listener's local
/// stream, or `None` while no listener runs.
pub type TunnelStates = Map<TunnelId, Option<Sender<Vec<u8>>>>;

/// The map of tunnels by id.
pub type TunnelTable = DashMap<TunnelId, Tunnel>;

/// What a map of tunnels holds: the tunnel stored under each id.
pub type TunnelEntries = Map<TunnelId, Tunnel>;

/// The entries of a `DashMap` of tunnels.
pub uninterp spec fn tunnel_table(map: TunnelTable) -> TunnelEntries;

/// The open tunnels of a map of tunnels, each with the sender to its
/// listener.
pub open spec fn senders_of(entries: TunnelEntries) -> TunnelStates {
    entries.map_values(|tunnel: Tunnel| tunnel.sender())
}

/// `DashMap::new`: an empty map.
#[verifier::external_body]
fn new_tunnel_table() -> (table: TunnelTable)
    ensures
        tunnel_table(table) == TunnelEntries::empty(),
{
    DashMap::new()
}

/// `DashMap::insert`: the tunnel now stands under `tid`; the tunnel that
/// stood there before, if any, is handed back.  (`DashMap` inserts through
/// a shared reference; the map is passed mutably so that its contents can
/// be stated before and after.)  The shard's hash table panics only when its
/// capacity would overflow `usize`, which running out of memory, an abort,
/// comes long before; so the call is stated not to unwind.
#[verifier::external_body]
fn tunnel_table_insert(
    map: &mut TunnelTable,
    tid: TunnelId,
    tunnel: Tunnel,
) -> (displaced: Option<Tunnel>)
    ensures
        tunnel_table(*final(map)) == tunnel_table(*old(map)).insert(tid, tunnel),
        displaced == tunnel_table(*old(map)).get(tid),
    no_unwind
{
    map.insert(tid, tunnel)
}

/// `DashMap::remove`: the tunnel under `tid` leaves the map and is handed
/// back, if there was one.  (Passed mutably, as for `insert`; removing
/// never grows the table, and the call does not unwind.)
#[verifier::external_body]
fn tunnel_table_remove(map: &mut TunnelTable, tid: TunnelId) -> (removed: Option<Tunnel>)
    ensures
        tunnel_table(*final(map)) == tunnel_table(*old(map)).remove(tid),
        removed == tunnel_table(*old(map)).get(tid),
    no_unwind
{
    map.remove(&tid).map(|(_, tunnel)| tunnel)
}

/// `DashMap::into_iter`: every tunnel of the map, each once (the shards are
/// walked in turn, and each shard yields each of its entries once).  The
/// order of the walk is not stated.
#[verifier::external_body]
fn tunnel_table_into_tunnels(map: TunnelTable) -> (tunnels: Vec<Tunnel>)
    ensures
        tunnels@.len() == tunnel_table(map).len(),
        forall|i: int| 0 <= i < tunnels@.len() ==> exists|tid: TunnelId|
            #[trigger] tunnel_table(map).contains_key(tid) && tunnel_table(map)[tid] == #[trigger] tunnels@[i],
        forall|tid: TunnelId| #[trigger] tunnel_table(map).contains_key(tid) ==> exists|i: int|
            0 <= i < tunnels@.len() && #[trigger] tunnels@[i] == tunnel_table(map)[tid],
{
    map.into_iter().map(|(_, tunnel)| tunnel).collect()
}

/// `DashMap::get`: finds the tunnel under `tid` and takes a second sender
/// on its channel with `Tunnel::cloned_sender`.
#[verifier::external_body]
fn tunnel_table_sender(map: &TunnelTable, tid: TunnelId) -> (found: Option<Option<Sender<Vec<u8>>>>)
    ensures
        found is Some <==> tunnel_table(*map).contains_key(tid),
        found matches Some(sender) ==> sender == tunnel_table(*map)[tid].sender(),
{
    map.get(&tid).map(|entry| entry.value().cloned_sender())
}

/// `Uuid::new_v4`: a random version 4 UUID, as its 128 bits.  Whatever
/// the random bits, the version field holds 4 and the variant field the
/// bits `10`.
#[verifier::external_body]
fn new_tunnel_id() -> (tid: TunnelId)
    ensures
        (tid >> 76u128) & 0xfu128 == 4,
        (tid >> 62u128) & 0x3u128 == 2,
{
    uuid::Uuid::new_v4().as_u128()
}

/// What the outcome of a connect attempt under a timeout means for the
/// tunnel: `None` is a timeout, an error is a failure of the given kind.
pub open spec fn connect_outcome<S>(outcome: Option<Result<S, IoErrorKind>>) -> Result<S, TunnelDefeat> {
    match outcome {
        None => Err(TunnelDefeat::ConnectionTimeout),
        Some(Err(kind)) => Err(defeat_of_io_error(kind)),
        Some(Ok(stream)) => Ok(stream),
    }
}

/// The decision of a TCP connect under a timeout.
pub fn connect_result<S>(outcome: Option<Result<S, IoErrorKind>>) -> (result: Result<S, TunnelDefeat>)
    ensures
        result == connect_outcome(outcome),
{
    match outcome {
        None => Err(TunnelDefeat::ConnectionTimeout),
        Some(Err(kind)) => Err(TunnelDefeat::from(kind)),
        Some(Ok(stream)) => Ok(stream),
    }
}

/// What the runtime does next for a received message.
pub enum Handling {
    /// A dialled tunnel to accept: connect, start its listener, open it.
    Connect(AcceptTask),
    /// The tunnel was closed; stop the tunnel that was removed, if any.
    Closed(Option<Tunnel>),
    /// Hand the body to the tunnel through this sender; a tunnel without a
    /// listener has none, and the body is dropped.
    Forward { sender: Option<Sender<Vec<u8>>>, body: Vec<u8> },
    /// The message could not be handled.
    Failed(TunnelDefeat),
}

/// The tunnels once a message has been handled: only a `TcpClose` changes
/// them, by removing its tunnel.
pub open spec fn tunnels_after(tunnels: TunnelStates, msg: ProxyMessage) -> TunnelStates {
    match msg {
        ProxyMessage::TcpClose { tid, .. } => tunnels.remove(tid),
        _ => tunnels,
    }
}

/// The tunnels once a tunnel has been opened under `tid`, with the sender
/// to its listener if it has one.
pub open spec fn with_tunnel(
    tunnels: TunnelStates,
    tid: TunnelId,
    sender: Option<Sender<Vec<u8>>>,
) -> TunnelStates {
    tunnels.insert(tid, sender)
}

/// Where a package goes: the sender of an open tunnel, or why it has none.
pub type Route = Result<Option<Sender<Vec<u8>>>, TunnelDefeat>;

/// Where a package for tunnel `tid` goes: to the sender of the open tunnel
/// under that id (none if its listener does not run), or nowhere.
pub open spec fn package_route(tunnels: TunnelStates, tid: TunnelId) -> Route {
    if tunnels.contains_key(tid) {
        Ok(tunnels[tid])
    } else {
        Err(TunnelDefeat::TunnelNotFound)
    }
}

/// The body that a message hands to an open tunnel, with the sender that
/// takes it; `None` for any other message.
pub open spec fn forwarded(tunnels: TunnelStates, msg: ProxyMessage) -> Option<(Option<Sender<Vec<u8>>>, Seq<u8>)> {
    match msg {
        ProxyMessage::TcpPackage { tid, body } => match package_route(tunnels, tid) {
            Ok(sender) => Some((sender, body@)),
            Err(_) => None,
        },
        _ => None,
    }
}

/// The tunnels of one proxy backend.
///
/// The proxy owns its map of tunnels and changes it through `&mut self`
/// only; a runtime that shares a proxy between tasks puts it behind a lock.
pub struct Proxy {
    tunnels: TunnelTable,
}

impl Proxy {
    /// Every tunnel stands under its own id.
    #[verifier::type_invariant]
    spec fn wf(self) -> bool {
        forall|tid: TunnelId| #[trigger] tunnel_table(self.tunnels).contains_key(tid)
            ==> tunnel_table(self.tunnels)[tid].id() == tid
    }

    /// The tunnels of the proxy, each under its id.
    pub closed spec fn table(self) -> TunnelEntries {
        tunnel_table(self.tunnels)
    }

    /// The open tunnels, each with the sender to its listener.
    pub open spec fn tunnels(self) -> TunnelStates {
        senders_of(self.table())
    }

    pub fn new() -> (proxy: Proxy)
        ensures
            proxy.table() == TunnelEntries::empty(),
            proxy.tunnels() == TunnelStates::empty(),
    {
        let proxy = Proxy { tunnels: new_tunnel_table() };
        assert(proxy.tunnels() =~= TunnelStates::empty());
        proxy
    }

    /// Handles a message of the peer on a connection, given whether the
    /// transport knows that connection.
    pub fn handle_message(&mut self, msg: &ProxyMessage, connection_found: bool) -> (handling: Handling)
        ensures
            final(self).tunnels() == tunnels_after(old(self).tunnels(), *msg),
            match *msg {
                ProxyMessage::TcpClose { tid, .. } => final(self).table() == old(self).table().remove(tid),
                _ => final(self).table() == old(self).table(),
            },
            match *msg {
                ProxyMessage::TcpDial { tid, addr } => if connection_found {
                    &&& handling matches Handling::Connect(task)
                    &&& task.tunnel() == tid
                    &&& task.target() == addr
                    &&& task.timeout() == DIAL_TIMEOUT_S
                } else {
                    handling == Handling::Failed(TunnelDefeat::WebrtcConnectionNotFound)
                },
                ProxyMessage::TcpClose { tid, .. } => handling == Handling::Closed(old(self).table().get(tid)),
                ProxyMessage::TcpPackage { tid, .. } => match forwarded(old(self).tunnels(), *msg) {
                    Some((to, body)) => {
                        &&& handling matches Handling::Forward { sender, body: handed }
                        &&& sender == to
                        &&& handed@ == body
                    },
                    None => handling == Handling::Failed(TunnelDefeat::TunnelNotFound),
                },
            },
    {
        proof {
            use_type_invariant(&*self);
        }
        match msg {
            ProxyMessage::TcpDial { tid, addr } => {
                if connection_found {
                    Handling::Connect(AcceptTask::new(*tid, *addr, DIAL_TIMEOUT_S))
                } else {
                    Handling::Failed(TunnelDefeat::WebrtcConnectionNotFound)
                }
            },
            ProxyMessage::TcpClose { tid, .. } => {
                let removed = tunnel_table_remove(&mut self.tunnels, *tid);
                assert(self.tunnels() =~= old(self).tunnels().remove(*tid));
                Handling::Closed(removed)
            },
            ProxyMessage::TcpPackage { tid, body } => {
                match tunnel_table_sender(&self.tunnels, *tid) {
                    Some(sender) => {
                        let forwarded = body.clone();
                        assert(forwarded@ =~= body@);
                        Handling::Forward { sender, body: forwarded }
                    },
                    None => Handling::Failed(TunnelDefeat::TunnelNotFound),
                }
            },
        }
    }

    /// Puts a tunnel in the table under its own id.  The tunnel that stood
    /// there before, if any, is handed back to be stopped.
    pub fn open_tunnel(&mut self, tunnel: Tunnel) -> (displaced: Option<Tunnel>)
        ensures
            final(self).table() == old(self).table().insert(tunnel.id(), tunnel),
            final(self).tunnels() == with_tunnel(old(self).tunnels(), tunnel.id(), tunnel.sender()),
            displaced == old(self).table().get(tunnel.id()),
    {
        proof {
            use_type_invariant(&*self);
        }
        let tid = tunnel.tid();
        let ghost opened = tunnel;
        let displaced = tunnel_table_insert(&mut self.tunnels, tid, tunnel);
        assert(self.tunnels() =~= old(self).tunnels().insert(tid, opened.sender()));
        displaced
    }

    /// Takes every tunnel out of the table, to be stopped: the proxy is left
    /// without tunnels, and each tunnel it had is handed back once.
    pub fn close_all(&mut self) -> (closed: Vec<Tunnel>)
        ensures
            final(self).table() == TunnelEntries::empty(),
            final(self).tunnels() == TunnelStates::empty(),
            closed@.len() == old(self).table().len(),
            forall|i: int| 0 <= i < closed@.len() ==> {
                &&& old(self).table().contains_key(#[trigger] closed@[i].id())
                &&& old(self).table()[closed@[i].id()] == closed@[i]
            },
            forall|tid: TunnelId| #[trigger] old(self).table().contains_key(tid) ==> exists|i: int|
                0 <= i < closed@.len() && (#[trigger] closed@[i]).id() == tid,
    {
        proof {
            use_type_invariant(&*self);
        }
        let ghost entries = tunnel_table(self.tunnels);
        let mut table = new_tunnel_table();
        std::mem::swap(&mut table, &mut self.tunnels);
        let closed = tunnel_table_into_tunnels(table);
        assert(self.tunnels() =~= TunnelStates::empty());
        assert forall|i: int| 0 <= i < closed@.len() implies {
            &&& old(self).table().contains_key(#[trigger] closed@[i].id())
            &&& old(self).table()[closed@[i].id()] == closed@[i]
        } by {
            let tid = choose|tid: TunnelId| #[trigger] entries.contains_key(tid) && entries[tid] == closed@[i];
            assert(entries.contains_key(tid));
        }
        assert forall|tid: TunnelId| #[trigger] old(self).table().contains_key(tid) implies exists|i: int|
            0 <= i < closed@.len() && (#[trigger] closed@[i]).id() == tid by {
            assert(entries.contains_key(tid));
            let i = choose|i: int| 0 <= i < closed@.len() && #[trigger] closed@[i] == entries[tid];
            assert(closed@[i].id() == tid);
        }
        closed
    }

    /// Starts dialling over connection `cid`, given whether the transport
    /// knows it: a new tunnel with a fresh random id, not yet listening.
    pub fn dial_tunnel(&self, cid: &str, connection_found: bool) -> (dialled: Result<Tunnel, ProxyError>)
        ensures
            !connection_found ==> (dialled matches Err(ProxyError::ConnectionNotFound(c)) && c@ == cid@),
            connection_found ==> (dialled matches Ok(t) && !t.listening()
                && (t.id() >> 76u128) & 0xfu128 == 4 && (t.id() >> 62u128) & 0x3u128 == 2),
    {
        if !connection_found {
            return Err(ProxyError::ConnectionNotFound(cid.to_owned()));
        }
        Ok(Tunnel::new(new_tunnel_id()))
    }
}

/// Accepting a dialled tunnel on the far peer: connect to the target within
/// the timeout, start the listener of a new tunnel with the dialled id on
/// the stream, and open that tunnel.
pub struct AcceptTask {
    tid: TunnelId,
    addr: SocketAddress,
    timeout_s: u64,
}

impl AcceptTask {
    /// The id of the tunnel being accepted.
    pub closed spec fn tunnel(self) -> TunnelId {
        self.tid
    }

    /// Where its TCP connection goes.
    pub closed spec fn target(self) -> SocketAddress {
        self.addr
    }

    /// How long the connect may take, in seconds.
    pub closed spec fn timeout(self) -> u64 {
        self.timeout_s
    }

    pub fn new(tid: TunnelId, addr: SocketAddress, timeout_s: u64) -> (task: AcceptTask)
        ensures
            task.tunnel() == tid,
            task.target() == addr,
            task.timeout() == timeout_s,
    {
        AcceptTask { tid, addr, timeout_s }
    }

    pub fn tid(&self) -> (tid: TunnelId)
        ensures
            tid == self.tunnel(),
    {
        self.tid
    }

    pub fn addr(&self) -> (addr: SocketAddress)
        ensures
            addr == self.target(),
    {
        self.addr
    }

    pub fn timeout_s(&self) -> (timeout_s: u64)
        ensures
            timeout_s == self.timeout(),
    {
        self.timeout_s
    }

    /// The outcome of the connect: a stream comes with the new tunnel,
    /// which does not listen yet; a timeout or a failure is the defeat of
    /// the dial.
    pub fn on_connected<S>(&self, outcome: Option<Result<S, IoErrorKind>>) -> (accepted: Result<(S, Tunnel), TunnelDefeat>)
        ensures
            match connect_outcome(outcome) {
                Ok(stream) => accepted matches Ok((s, t)) && s == stream && t.id() == self.tunnel() && !t.listening(),
                Err(defeat) => accepted == Err::<(S, Tunnel), TunnelDefeat>(defeat),
            },
    {
        match connect_result(outcome) {
            Ok(stream) => Ok((stream, Tunnel::new(self.tid))),
            Err(defeat) => Err(defeat),
        }
    }

    /// The accepted tunnel with its listener running: it is opened.  The
    /// tunnel that stood under its id before, if any, is handed back to be
    /// stopped.
    pub fn on_listening(self, proxy: &mut Proxy, tunnel: Tunnel) -> (displaced: Option<Tunnel>)
        requires
            tunnel.id() == self.tunnel(),
            tunnel.listening(),
        ensures
            final(proxy).table() == old(proxy).table().insert(self.tunnel(), tunnel),
            final(proxy).tunnels() == with_tunnel(old(proxy).tunnels(), self.tunnel(), tunnel.sender()),
            displaced == old(proxy).table().get(self.tunnel()),
    {
        proxy.open_tunnel(tunnel)
    }
}

/// Where a dial stands.
pub enum DialStage {
    /// Waiting to learn whether the transport knows the connection.
    LookingUp,
    /// Waiting for the listener of tunnel `tid` to start.
    Listening { tid: TunnelId },
    /// Waiting for the `TcpDial` to be encoded.
    Encoding,
    /// Waiting for the encoded `TcpDial` to be sent.
    Sending,
    Done,
}

/// The step that the runtime performs next for a dial.
pub enum DialAction {
    /// Start the listener of this tunnel on the local stream.
    StartListener(Tunnel),
    /// Encode this message for the data channel.
    Encode(ProxyMessage),
    /// Send this message on the connection.
    Send(XrtcMessage),
    /// The dial is complete, with this result.
    Finish(Result<(), ProxyError>),
}

/// A dial: a local stream becomes a new tunnel, which is opened here and
/// then announced to the peer with a `TcpDial` for `addr`.
pub struct DialTask {
    addr: SocketAddress,
    stage: DialStage,
}

impl DialTask {
    pub closed spec fn target(self) -> SocketAddress {
        self.addr
    }

    pub closed spec fn stage(self) -> DialStage {
        self.stage
    }

    pub fn new(addr: SocketAddress) -> (task: DialTask)
        ensures
            task.target() == addr,
            task.stage() == DialStage::LookingUp,
    {
        DialTask { addr, stage: DialStage::LookingUp }
    }

    /// Whether the transport knows connection `cid`: a dial over an unknown
    /// connection fails and names it; otherwise a new tunnel is made.
    pub fn on_looked_up(&mut self, proxy: &Proxy, cid: &str, connection_found: bool) -> (action: DialAction)
        requires
            old(self).stage() == DialStage::LookingUp,
        ensures
            final(self).target() == old(self).target(),
            !connection_found ==> final(self).stage() == DialStage::Done
                && (action matches DialAction::Finish(Err(ProxyError::ConnectionNotFound(c))) && c@ == cid@),
            connection_found ==> (action matches DialAction::StartListener(t)
                && !t.listening()
                && (t.id() >> 76u128) & 0xfu128 == 4 && (t.id() >> 62u128) & 0x3u128 == 2
                && final(self).stage() == (DialStage::Listening { tid: t.id() })),
    {
        match proxy.dial_tunnel(cid, connection_found) {
            Ok(tunnel) => {
                self.stage = DialStage::Listening { tid: tunnel.tid() };
                DialAction::StartListener(tunnel)
            },
            Err(e) => {
                self.stage = DialStage::Done;
                DialAction::Finish(Err(e))
            },
        }
    }

    /// The tunnel with its listener running: it is opened, then the peer is
    /// told to dial `addr` for it.  The tunnel that stood under its id
    /// before, if any, is handed back to be stopped.
    pub fn on_listening(&mut self, proxy: &mut Proxy, tunnel: Tunnel) -> (outcome: (DialAction, Option<Tunnel>))
        requires
            old(self).stage() == (DialStage::Listening { tid: tunnel.id() }),
            tunnel.listening(),
        ensures
            final(self).target() == old(self).target(),
            final(self).stage() == DialStage::Encoding,
            final(proxy).table() == old(proxy).table().insert(tunnel.id(), tunnel),
            final(proxy).tunnels() == with_tunnel(old(proxy).tunnels(), tunnel.id(), tunnel.sender()),
            outcome.0 == DialAction::Encode(ProxyMessage::TcpDial { tid: tunnel.id(), addr: old(self).target() }),
            outcome.1 == old(proxy).table().get(tunnel.id()),
    {
        let tid = tunnel.tid();
        let displaced = proxy.open_tunnel(tunnel);
        self.stage = DialStage::Encoding;
        (DialAction::Encode(ProxyMessage::TcpDial { tid, addr: self.addr }), displaced)
    }

    pub fn on_encoded(&mut self, encoded: Result<Vec<u8>, bincode::Error>) -> (action: DialAction)
        requires
            old(self).stage() == DialStage::Encoding,
        ensures
            final(self).target() == old(self).target(),
            match framed(encoded) {
                Ok(message) => final(self).stage() == DialStage::Sending && action == DialAction::Send(message),
                Err(e) => final(self).stage() == DialStage::Done && action == DialAction::Finish(Err(e)),
            },
    {
        match XrtcMessage::from_encoded(encoded) {
            Ok(message) => {
                self.stage = DialStage::Sending;
                DialAction::Send(message)
            },
            Err(e) => {
                self.stage = DialStage::Done;
                DialAction::Finish(Err(e))
            },
        }
    }

    pub fn on_sent(&mut self, sent: Result<(), TransportError>) -> (action: DialAction)
        requires
            old(self).stage() == DialStage::Sending,
        ensures
            final(self).target() == old(self).target(),
            final(self).stage() == DialStage::Done,
            match sent {
                Ok(()) => action == DialAction::Finish(Ok(())),
                Err(e) => action == DialAction::Finish(Err(ProxyError::TransportError(e))),
            },
    {
        self.stage = DialStage::Done;
        match sent {
            Ok(()) => DialAction::Finish(Ok(())),
            Err(e) => DialAction::Finish(Err(ProxyError::TransportError(e))),
        }
    }
}

} // verus!
