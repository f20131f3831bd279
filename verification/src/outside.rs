//! Types of other crates that the library carries.
//!
//! Each declaration below only makes the type nameable in verified code;
//! nothing inside a value of these types is visible to the proofs.

use vstd::prelude::*;

verus! {

/// An I/O error of the standard library.
#[verifier::external_type_specification]
#[verifier::external_body]
pub struct ExIoError(std::io::Error);

/// What went wrong while encoding or decoding with bincode.
#[verifier::external_type_specification]
#[verifier::external_body]
pub struct ExBincodeErrorKind(bincode::ErrorKind);

/// An error of the WebRTC stack.
#[verifier::external_type_specification]
#[verifier::external_body]
pub struct ExWebrtcError(webrtc::Error);

/// A WebRTC peer connection.
#[verifier::external_type_specification]
#[verifier::external_body]
pub struct ExPeerConnection(webrtc::peer_connection::RTCPeerConnection);

/// A WebRTC data channel.
#[verifier::external_type_specification]
#[verifier::external_body]
pub struct ExDataChannel(webrtc::data_channel::RTCDataChannel);

/// An SDP offer or answer.
#[verifier::external_type_specification]
#[verifier::external_body]
pub struct ExSessionDescription(webrtc::peer_connection::sdp::session_description::RTCSessionDescription);

/// The entry point of the WebRTC stack.
#[verifier::external_type_specification]
#[verifier::external_body]
pub struct ExWebrtcApi(webrtc::api::API);

/// The configuration that new peer connections are made with.
#[verifier::external_type_specification]
#[verifier::external_body]
pub struct ExRtcConfiguration(webrtc::peer_connection::configuration::RTCConfiguration);

/// The sending half of a bounded tokio channel.
#[verifier::external_type_specification]
#[verifier::external_body]
#[verifier::reject_recursive_types(T)]
pub struct ExSender<T>(tokio::sync::mpsc::Sender<T>);

/// A handle on a spawned tokio task.
#[verifier::external_type_specification]
#[verifier::external_body]
#[verifier::reject_recursive_types(T)]
pub struct ExJoinHandle<T>(tokio::task::JoinHandle<T>);

/// Why a tokio task did not finish.
#[verifier::external_type_specification]
#[verifier::external_body]
pub struct ExJoinError(tokio::task::JoinError);

/// A token that tells a task to stop.
#[verifier::external_type_specification]
#[verifier::external_body]
pub struct ExCancellationToken(tokio_util::sync::CancellationToken);

/// A concurrent hash map.
#[verifier::external_type_specification]
#[verifier::external_body]
#[verifier::reject_recursive_types(K)]
#[verifier::reject_recursive_types(V)]
#[verifier::reject_recursive_types(S)]
pub struct ExDashMap<K, V, S>(dashmap::DashMap<K, V, S>);

} // verus!
