//! The frames this component exchanges on the bus, modelled over plain
//! values: enum and flag fields carry the numeric codes that the MAVLink
//! common dialect assigns them, and byte-buffer fields carry their encoded
//! bytes. The unverified shell converts between these and the wire types of
//! the `mavlink` crate.

use vstd::prelude::*;

verus! {

/// Addressing pair identifying the sender of a received frame, or the
/// intended sender of a frame to send.
#[derive(Clone, Copy, PartialEq, Eq, Structural, Debug)]
pub struct FrameHeader {
    pub system_id: u8,
    pub component_id: u8,
}

/// A liveness frame. Field values are the numeric codes of the MAVLink
/// `HEARTBEAT` message's enums.
#[derive(Clone, Copy, PartialEq, Eq, Structural, Debug)]
pub struct Heartbeat {
    pub custom_mode: u32,
    pub mavtype: u8,
    pub autopilot: u8,
    pub base_mode: u8,
    pub system_status: u8,
    pub mavlink_version: u8,
}

/// Acknowledgment of an inbound command, addressed back to the commander.
#[derive(Clone, Copy, PartialEq, Eq, Structural, Debug)]
pub struct CommandAck {
    pub command: u32,
    pub result: u8,
    pub target_system: u8,
    pub target_component: u8,
}

/// Static capability description of the camera. `vendor_name` and
/// `model_name` are fixed-capacity byte buffers; `definition_uri` is a
/// bounded buffer whose construction fails rather than truncates.
#[derive(Debug)]
pub struct CameraInformation {
    pub time_boot_ms: u32,
    pub firmware_version: u32,
    pub flags: u32,
    pub resolution_h: u16,
    pub resolution_v: u16,
    pub cam_definition_version: u16,
    pub lens_id: u8,
    pub vendor_name: [u8; 32],
    pub model_name: [u8; 32],
    pub definition_uri: Vec<u8>,
}

/// The payload of an inbound generic command frame. `command` is the
/// numeric command code; `param1_whole` holds the exact whole-number value
/// of the first parameter when it has one, and `None` when the parameter is
/// fractional, out of range, or not a number.
#[derive(Clone, Copy, PartialEq, Eq, Structural, Debug)]
pub struct CommandLongData {
    pub command: u32,
    pub param1_whole: Option<u32>,
}

/// An inbound frame after decoding, reduced to what the dispatch rule
/// reads: generic commands are inspected, everything else is ignored.
#[derive(Clone, Copy, PartialEq, Eq, Structural, Debug)]
pub enum InboundMessage {
    Heartbeat,
    CommandLong(CommandLongData),
    Other,
}

/// A frame this component emits.
#[derive(Debug)]
pub enum OutboundMessage {
    Heartbeat(Heartbeat),
    CommandAck(CommandAck),
    CameraInformation(CameraInformation),
}

/// Failure to encode a source string into a bounded byte buffer: the
/// encoded bytes exceed the buffer's capacity.
#[derive(Clone, Copy, PartialEq, Eq, Structural, Debug)]
pub enum EncodingError {
    CapacityExceeded,
}

/// Outcome of one receive attempt against the transport. `WouldBlock` is
/// not a failure: no frame is currently available and the caller must try
/// again later. `Io` is a genuine transport failure.
#[derive(Clone, Copy, PartialEq, Eq, Structural, Debug)]
pub enum ReceiveOutcome {
    Frame(FrameHeader, InboundMessage),
    WouldBlock,
    Io,
}

} // verus!
