//! Verified core of xrtc: TCP tunnels carried over WebRTC data channels.
//!
//! The library holds the decisions of the proxy protocol and of the
//! transport: which message answers which, when a tunnel is opened, fed and
//! closed, and why a tunnel failed.  The async runtime that moves the bytes
//! performs the actions that these functions return.

pub mod backend;
pub mod defeat;
pub mod error;
pub mod laws;
pub mod listener;
pub mod message;
pub mod outside;
pub mod proxy;
pub mod service;
pub mod transport;
pub mod tunnel;
