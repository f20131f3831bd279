//! Properties that hold across the operations of the library.

use vstd::prelude::*;

use tokio::sync::mpsc::Sender;

use crate::backend::{next, MessageAction, MessageEvent, MessageTask};
use crate::defeat::TunnelDefeat;
use crate::error::ProxyError;
use crate::message::{ProxyMessage, TunnelId, XrtcMessage};
use crate::listener::{
    listener_next, package_of_chunk, run_listener, ships_close, ListenerEvent, ListenerOutput, ListenerState,
};
use crate::defeat::{defeat_name, defeat_of_io_error, IoErrorKind};
use crate::message::framed;
use crate::transport::not_found_text;
use crate::proxy::{connect_outcome, forwarded, package_route, tunnels_after, with_tunnel, Route, TunnelStates};
use crate::service::{
    answer_offer_path, http_base, ErrorMessage, ServiceError, STATUS_BAD_REQUEST, STATUS_INTERNAL_SERVER_ERROR,
    STATUS_NOT_FOUND,
};
use crate::transport::{lookup, registered, Connection, Connections};

verus! {

/// A chunk of bytes that the listener of a tunnel reads is shipped as a
/// package that hands exactly those bytes to the sender of the tunnel of
/// the same id on the peer, once the peer has opened it with a running
/// listener: the bytes reach that tunnel's local stream and no other.
pub proof fn chunk_reaches_peer_tunnel(
    tunnels: TunnelStates,
    tid: TunnelId,
    chunk: Vec<u8>,
    sender: Sender<Vec<u8>>,
)
    requires
        chunk@.len() > 0,
    ensures
        package_of_chunk(tid, chunk) matches Some(package)
            && forwarded(with_tunnel(tunnels, tid, Some(sender)), package) == Some((Some(sender), chunk@)),
{
}

/// What holds of a listener of tunnel `tid` that has reached `state` while
/// answering with `outputs`.
pub open spec fn listener_kept(tid: TunnelId, state: ListenerState, outputs: Seq<ListenerOutput>) -> bool {
    &&& state.tid == tid
    &&& forall|i: int| 0 <= i < outputs.len() ==> (#[trigger] outputs[i] matches ListenerOutput::Ship(m)
        ==> m.tunnel() == tid && !(m is TcpDial))
    &&& forall|i: int, j: int| 0 <= i < j < outputs.len() && ships_close(#[trigger] outputs[i])
        ==> #[trigger] outputs[j] is Idle
    &&& (state.stopped is Some <==> exists|i: int| 0 <= i < outputs.len() && ships_close(#[trigger] outputs[i]))
    &&& (state.stopped matches Some(reason) ==> exists|i: int| 0 <= i < outputs.len()
        && #[trigger] outputs[i] == ListenerOutput::Ship(ProxyMessage::TcpClose { tid, reason }))
}

proof fn lemma_listener_run(tid: TunnelId, events: Seq<ListenerEvent>)
    ensures
        ({
            let (state, outputs) = run_listener(ListenerState { tid, stopped: None }, events);
            listener_kept(tid, state, outputs)
        }),
    decreases events.len(),
{
    if events.len() > 0 {
        let start = ListenerState { tid, stopped: None };
        lemma_listener_run(tid, events.drop_last());
        let (before, outputs) = run_listener(start, events.drop_last());
        let (after, output) = listener_next(before, events.last());
        let all = outputs.push(output);
        assert(run_listener(start, events) == (after, all));
        assert forall|i: int| 0 <= i < outputs.len() implies all[i] == outputs[i] by {}
        assert(all[outputs.len() as int] == output);
        if before.stopped is Some {
            assert(output is Idle && after == before);
            let reason = before.stopped->0;
            let k = choose|k: int| 0 <= k < outputs.len()
                && #[trigger] outputs[k] == ListenerOutput::Ship(ProxyMessage::TcpClose { tid, reason });
            assert(all[k] == outputs[k]);
            assert(ships_close(all[k]));
        } else {
            assert forall|i: int| 0 <= i < outputs.len() implies !ships_close(#[trigger] outputs[i]) by {}
            if after.stopped is Some {
                assert(output == ListenerOutput::Ship(ProxyMessage::TcpClose { tid, reason: after.stopped->0 }));
                assert(ships_close(all[outputs.len() as int]));
            } else {
                assert(!ships_close(output));
            }
        }
        assert(listener_kept(tid, after, all));
    }
}

/// Whatever the two loops of a tunnel's listener report, in whatever
/// order: every message the listener ships names its own tunnel and is a
/// package or a close, never a dial; once it has shipped a close it asks
/// for nothing more, so it ships at most one close and that close comes
/// last; and it has stopped exactly when it has shipped its close, which
/// carries the reason it stopped for.
pub proof fn listener_closes_once(tid: TunnelId, events: Seq<ListenerEvent>)
    ensures
        ({
            let (state, outputs) = run_listener(ListenerState { tid, stopped: None }, events);
            &&& state.tid == tid
            &&& forall|i: int| 0 <= i < outputs.len() ==> (#[trigger] outputs[i] matches ListenerOutput::Ship(m)
                ==> m.tunnel() == tid && !(m is TcpDial))
            &&& forall|i: int, j: int| 0 <= i < j < outputs.len() && ships_close(#[trigger] outputs[i])
                ==> #[trigger] outputs[j] is Idle
            &&& (state.stopped is Some <==> exists|i: int| 0 <= i < outputs.len() && ships_close(#[trigger] outputs[i]))
            &&& (state.stopped matches Some(reason) ==> exists|i: int| 0 <= i < outputs.len()
                && #[trigger] outputs[i] == ListenerOutput::Ship(ProxyMessage::TcpClose { tid, reason }))
        }),
{
    lemma_listener_run(tid, events);
}

/// A tunnel that was just opened takes the packages sent to it, through the
/// sender of its own listener if it has one.
pub proof fn opened_tunnel_takes_packages(tunnels: TunnelStates, tid: TunnelId, sender: Option<Sender<Vec<u8>>>)
    ensures
        package_route(with_tunnel(tunnels, tid, sender), tid) == Route::Ok(sender),
{
}

/// Opening a tunnel leaves the route of every other tunnel as it was.
pub proof fn open_keeps_other_routes(
    tunnels: TunnelStates,
    tid: TunnelId,
    sender: Option<Sender<Vec<u8>>>,
    other: TunnelId,
)
    requires
        other != tid,
    ensures
        package_route(with_tunnel(tunnels, tid, sender), other) == package_route(tunnels, other),
{
}

/// Once a tunnel is closed, a package for it is refused with
/// `TunnelNotFound`.
pub proof fn closed_tunnel_refuses_packages(tunnels: TunnelStates, tid: TunnelId, reason: TunnelDefeat)
    ensures
        package_route(tunnels_after(tunnels, ProxyMessage::TcpClose { tid, reason }), tid)
            == Route::Err(TunnelDefeat::TunnelNotFound),
{
}

/// Closing a tunnel leaves every other tunnel as it was.
pub proof fn close_keeps_other_tunnels(
    tunnels: TunnelStates,
    tid: TunnelId,
    reason: TunnelDefeat,
    other: TunnelId,
)
    requires
        other != tid,
    ensures
        package_route(tunnels_after(tunnels, ProxyMessage::TcpClose { tid, reason }), other)
            == package_route(tunnels, other),
{
}

/// Only a `TcpClose` changes the tunnels: dials and packages leave them as
/// they were.
pub proof fn only_close_changes_tunnels(tunnels: TunnelStates, msg: ProxyMessage)
    requires
        !(msg is TcpClose),
    ensures
        tunnels_after(tunnels, msg) == tunnels,
{
}

/// Closing a tunnel a second time changes nothing.
pub proof fn close_is_idempotent(tunnels: TunnelStates, tid: TunnelId, first: TunnelDefeat, second: TunnelDefeat)
    ensures
        tunnels_after(
            tunnels_after(tunnels, ProxyMessage::TcpClose { tid, reason: first }),
            ProxyMessage::TcpClose { tid, reason: second },
        ) == tunnels_after(tunnels, ProxyMessage::TcpClose { tid, reason: first }),
{
    assert(tunnels_after(
        tunnels_after(tunnels, ProxyMessage::TcpClose { tid, reason: first }),
        ProxyMessage::TcpClose { tid, reason: second },
    ) =~= tunnels_after(tunnels, ProxyMessage::TcpClose { tid, reason: first }));
}

/// A message that was handled is not answered.
pub proof fn handled_message_is_not_answered(msg: ProxyMessage)
    ensures
        ({
            let (handling, first) = next(MessageTask::Decoding, MessageEvent::Decoded(Ok(msg)));
            &&& first == MessageAction::Handle(msg)
            &&& next(handling, MessageEvent::Handled(Ok(())))
                == (MessageTask::Done, MessageAction::Finish(Ok(())))
        }),
{
}

/// A message whose handling failed is answered with a `TcpClose` for the
/// message's tunnel that carries the reason; once that answer is sent, the
/// failure is reported as that tunnel error.
pub proof fn failed_message_is_answered(msg: ProxyMessage, defeat: TunnelDefeat, encoded: Vec<u8>)
    ensures
        ({
            let (handling, _) = next(MessageTask::Decoding, MessageEvent::Decoded(Ok(msg)));
            let (encoding, answer) = next(handling, MessageEvent::Handled(Err(defeat)));
            let (sending, delivery) = next(encoding, MessageEvent::Encoded(Ok(encoded)));
            &&& answer == MessageAction::Encode(ProxyMessage::TcpClose { tid: msg.tunnel(), reason: defeat })
            &&& delivery == MessageAction::Send(XrtcMessage::Custom(encoded))
            &&& next(sending, MessageEvent::Sent(Ok(())))
                == (MessageTask::Done, MessageAction::Finish(Err(ProxyError::TunnelError(defeat))))
        }),
{
}

/// A message that cannot be decoded is not answered: it has no tunnel to
/// name.
pub proof fn undecodable_message_is_not_answered(e: bincode::Error)
    ensures
        next(MessageTask::Decoding, MessageEvent::Decoded(Err(e)))
            == (MessageTask::Done, MessageAction::Finish(Err(ProxyError::Bincode(e)))),
{
}

/// A message for a connection id goes out on the connection last
/// registered under that id, and registering one id leaves every other id
/// as it was.
pub proof fn registered_connection_is_routed(
    connections: Connections,
    cid: Seq<char>,
    conn: Connection,
    other: Seq<char>,
)
    ensures
        lookup(registered(connections, cid, conn), cid) == Some(conn),
        other != cid ==> lookup(registered(connections, cid, conn), other) == lookup(connections, other),
{
}

/// A running listener writes every body the peer sends, unchanged and
/// whatever its length, into the local stream, and keeps running.
pub proof fn peer_body_is_written_whole(tid: TunnelId, body: Vec<u8>)
    ensures
        listener_next(ListenerState { tid, stopped: None }, ListenerEvent::Received(Some(body)))
            == (ListenerState { tid, stopped: None }, ListenerOutput::Write(body)),
{
}

/// A running listener ships every non-empty chunk read from the local
/// stream, unchanged, as a package of its own tunnel, and keeps running; an
/// empty read ends the stream and closes the tunnel as `ConnectionClosed`.
pub proof fn local_chunk_is_shipped_whole(tid: TunnelId, chunk: Vec<u8>)
    ensures
        chunk@.len() > 0 ==> listener_next(ListenerState { tid, stopped: None }, ListenerEvent::Read(Ok(chunk)))
            == (ListenerState { tid, stopped: None }, ListenerOutput::Ship(ProxyMessage::TcpPackage { tid, body: chunk })),
        chunk@.len() == 0 ==> listener_next(ListenerState { tid, stopped: None }, ListenerEvent::Read(Ok(chunk)))
            == (ListenerState { tid, stopped: Some(TunnelDefeat::ConnectionClosed) },
                ListenerOutput::Ship(ProxyMessage::TcpClose { tid, reason: TunnelDefeat::ConnectionClosed })),
{
}

/// A running listener stops at the first failure, cancellation or refusal,
/// and ships the close of its tunnel with that reason; every successful
/// step, and an empty receive, asks for nothing and leaves it running.
pub proof fn listener_stops_for_its_reason(tid: TunnelId, kind: IoErrorKind)
    ensures
        ({
            let running = ListenerState { tid, stopped: None };
            let closed = |reason: TunnelDefeat| (
                ListenerState { tid, stopped: Some(reason) },
                ListenerOutput::Ship(ProxyMessage::TcpClose { tid, reason }),
            );
            &&& listener_next(running, ListenerEvent::Cancelled) == closed(TunnelDefeat::ConnectionClosed)
            &&& listener_next(running, ListenerEvent::Read(Err(kind))) == closed(defeat_of_io_error(kind))
            &&& listener_next(running, ListenerEvent::Written(Err(kind))) == closed(defeat_of_io_error(kind))
            &&& listener_next(running, ListenerEvent::Encoded(false)) == closed(TunnelDefeat::SerializationFailed)
            &&& listener_next(running, ListenerEvent::Sent(false)) == closed(TunnelDefeat::WebrtcDatachannelSendFailed)
            &&& listener_next(running, ListenerEvent::Encoded(true)) == (running, ListenerOutput::Idle)
            &&& listener_next(running, ListenerEvent::Sent(true)) == (running, ListenerOutput::Idle)
            &&& listener_next(running, ListenerEvent::Written(Ok(()))) == (running, ListenerOutput::Idle)
            &&& listener_next(running, ListenerEvent::Received(None)) == (running, ListenerOutput::Idle)
        }),
{
}

/// A stopped listener ignores every event and stays as it was.
pub proof fn stopped_listener_ignores_events(tid: TunnelId, reason: TunnelDefeat, event: ListenerEvent)
    ensures
        listener_next(ListenerState { tid, stopped: Some(reason) }, event)
            == (ListenerState { tid, stopped: Some(reason) }, ListenerOutput::Idle),
{
}

/// A socket failure is reported as the defeat of the same kind; any kind
/// the proxy does not tell apart is `Unknown`.
pub proof fn io_failures_keep_their_kind(kind: IoErrorKind)
    ensures
        defeat_of_io_error(IoErrorKind::ConnectionRefused) == TunnelDefeat::ConnectionRefused,
        defeat_of_io_error(IoErrorKind::ConnectionAborted) == TunnelDefeat::ConnectionAborted,
        defeat_of_io_error(IoErrorKind::ConnectionReset) == TunnelDefeat::ConnectionReset,
        defeat_of_io_error(IoErrorKind::NotConnected) == TunnelDefeat::NotConnected,
        defeat_of_io_error(IoErrorKind::Other) == TunnelDefeat::Unknown,
        defeat_of_io_error(kind) == TunnelDefeat::Unknown <==> kind == IoErrorKind::Other,
{
}

/// A connect that ran out of time is a `ConnectionTimeout`; one that failed
/// is the defeat of its own kind; one that succeeded gives its stream.
pub proof fn connect_keeps_its_outcome<S>(stream: S, kind: IoErrorKind)
    ensures
        connect_outcome::<S>(None) == Err::<S, TunnelDefeat>(TunnelDefeat::ConnectionTimeout),
        connect_outcome::<S>(Some(Ok(stream))) == Ok::<S, TunnelDefeat>(stream),
        connect_outcome::<S>(Some(Err(IoErrorKind::ConnectionRefused))) == Err::<S, TunnelDefeat>(TunnelDefeat::ConnectionRefused),
        connect_outcome::<S>(Some(Err(IoErrorKind::ConnectionAborted))) == Err::<S, TunnelDefeat>(TunnelDefeat::ConnectionAborted),
        connect_outcome::<S>(Some(Err(IoErrorKind::ConnectionReset))) == Err::<S, TunnelDefeat>(TunnelDefeat::ConnectionReset),
        connect_outcome::<S>(Some(Err(IoErrorKind::NotConnected))) == Err::<S, TunnelDefeat>(TunnelDefeat::NotConnected),
        connect_outcome::<S>(Some(Err(IoErrorKind::Other))) == Err::<S, TunnelDefeat>(TunnelDefeat::Unknown),
        connect_outcome::<S>(Some(Err(kind))) == Err::<S, TunnelDefeat>(defeat_of_io_error(kind)),
{
}

/// A package is forwarded only to a tunnel that is open under its id, and
/// then with its whole body to that tunnel's sender; a package for any other
/// id is refused, whatever its body; no other message forwards anything.
pub proof fn packages_go_only_to_open_tunnels(tunnels: TunnelStates, msg: ProxyMessage)
    ensures
        forwarded(tunnels, msg) is Some <==> (msg is TcpPackage && tunnels.contains_key(msg.tunnel())),
        msg matches ProxyMessage::TcpPackage { tid, body } ==> {
            &&& tunnels.contains_key(tid) ==> forwarded(tunnels, msg) == Some((tunnels[tid], body@))
            &&& !tunnels.contains_key(tid) ==> package_route(tunnels, tid) == Route::Err(TunnelDefeat::TunnelNotFound)
            &&& tunnels.contains_key(tid) ==> package_route(tunnels, tid) == Route::Ok(tunnels[tid])
        },
{
}

/// The signalling service of a peer is reached over plain HTTP at its
/// address, and the offer is posted to its `/answer_offer` route.
pub proof fn service_urls_are_plain_http(address: Seq<char>)
    ensures
        http_base(address) == "http://"@ + address,
        answer_offer_path() == "/answer_offer"@,
{
}

/// The status of a failed request depends on the kind of failure alone:
/// a transport failure is a server error, a missing connection is not
/// found, and everything else is a bad request.  The body names the
/// connection or the peer's error.
pub proof fn error_status_follows_the_kind(text: String, cid: String, message: ErrorMessage)
    ensures
        ServiceError::Swarm(text).status() == STATUS_INTERNAL_SERVER_ERROR,
        ServiceError::PeerRequestError(text).status() == STATUS_BAD_REQUEST,
        ServiceError::PeerResponseError(message).status() == STATUS_BAD_REQUEST,
        ServiceError::SerdeJson(text).status() == STATUS_BAD_REQUEST,
        (ServiceError::ConnectionNotFound { cid }).status() == STATUS_NOT_FOUND,
        STATUS_INTERNAL_SERVER_ERROR == 500 && STATUS_BAD_REQUEST == 400 && STATUS_NOT_FOUND == 404,
        ServiceError::Swarm(text).message() == text@,
        ServiceError::SerdeJson(text).message() == text@,
        ServiceError::PeerRequestError(text).message() == text@,
        ServiceError::PeerResponseError(message).message() == "Peer response error: "@ + message.error@,
        (ServiceError::ConnectionNotFound { cid }).message() == "Connection not found: "@ + cid@,
{
}

/// An encoded proxy message travels as the whole payload of a data channel
/// message; an encoding failure is reported as a bincode error.
pub proof fn encoded_message_is_framed_whole(bytes: Vec<u8>, e: bincode::Error)
    ensures
        framed(Ok(bytes)) == Ok::<XrtcMessage, ProxyError>(XrtcMessage::Custom(bytes)),
        framed(Ok(bytes)) matches Ok(m) && m.bytes() == bytes@,
        framed(Err(e)) == Err::<XrtcMessage, ProxyError>(ProxyError::Bincode(e)),
{
}

/// A missing connection is named in the text that asks for a handshake.
pub proof fn missing_connection_text_names_it(cid: Seq<char>)
    ensures
        not_found_text(cid) == "Connection "@ + cid + " not found, should handshake first"@,
{
}

/// Each reason of a tunnel defeat is called by its own name; the absence of
/// a reason is called `None`.
pub proof fn defeats_are_called_by_their_names()
    ensures
        defeat_name(TunnelDefeat::NoReason) == "None"@,
        defeat_name(TunnelDefeat::ConnectionTimeout) == "ConnectionTimeout"@,
        defeat_name(TunnelDefeat::ConnectionRefused) == "ConnectionRefused"@,
        defeat_name(TunnelDefeat::ConnectionAborted) == "ConnectionAborted"@,
        defeat_name(TunnelDefeat::ConnectionReset) == "ConnectionReset"@,
        defeat_name(TunnelDefeat::NotConnected) == "NotConnected"@,
        defeat_name(TunnelDefeat::ConnectionClosed) == "ConnectionClosed"@,
        defeat_name(TunnelDefeat::WebrtcConnectionNotFound) == "WebrtcConnectionNotFound"@,
        defeat_name(TunnelDefeat::WebrtcDatachannelSendFailed) == "WebrtcDatachannelSendFailed"@,
        defeat_name(TunnelDefeat::TunnelNotFound) == "TunnelNotFound"@,
        defeat_name(TunnelDefeat::SerializationFailed) == "SerializationFailed"@,
        defeat_name(TunnelDefeat::Unknown) == "Unknown"@,
{
}

} // verus!
