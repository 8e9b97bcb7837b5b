//! A verified companion endpoint that impersonates a camera component on a
//! MAVLink command-and-control bus: it announces liveness with periodic
//! heartbeats, acknowledges every inbound command, and reports static camera
//! capability metadata on request.
//!
//! The library holds the protocol logic: deterministic construction of
//! outbound frames from an identity and bounded byte fields, and the dispatch
//! rule that maps each inbound frame to the exact sequence of replies. The
//! transport itself (connecting, sending and receiving wire frames) is an
//! outside collaborator driven by a thin unverified shell.

pub mod clock;
pub mod encode;
pub mod factory;
pub mod identity;
pub mod messages;
pub mod protocol;
