//! Pure construction of outbound frames from the component identity and
//! fixed capability values.
//!
//! The numeric constants are the codes that the MAVLink common/minimal
//! dialect assigns to the enum entries and flags this component uses, and
//! the byte capacities of the `CAMERA_INFORMATION` name and URI fields.

use vstd::prelude::*;
use vstd::utf8::encode_utf8;
use crate::encode::fixed_field;
use crate::encode::str_to_fixed_arr;
use crate::encode::string_to_uri;
use crate::messages::CameraInformation;
use crate::messages::CommandAck;
use crate::messages::EncodingError;
use crate::messages::FrameHeader;
use crate::messages::Heartbeat;

verus! {

/// `MAV_TYPE_CAMERA`: the vehicle/component type announced in heartbeats.
pub const MAV_TYPE_CAMERA: u8 = 30;

/// `MAV_AUTOPILOT_INVALID`: this component is not an autopilot.
pub const MAV_AUTOPILOT_INVALID: u8 = 8;

/// `MAV_STATE_ACTIVE`: the system status announced in heartbeats.
pub const MAV_STATE_ACTIVE: u8 = 4;

/// `MAV_RESULT_ACCEPTED`: the result code of every acknowledgment.
pub const MAV_RESULT_ACCEPTED: u8 = 0;

/// The MAVLink version byte carried in heartbeats.
pub const MAVLINK_VERSION_FIELD: u8 = 3;

/// `CAMERA_CAP_FLAGS_CAPTURE_IMAGE`: the camera can capture still images.
pub const CAMERA_CAP_FLAGS_CAPTURE_IMAGE: u32 = 2;

/// `CAMERA_CAP_FLAGS_HAS_IMAGE_SURVEY_MODE`: the camera has an image
/// survey mode.
pub const CAMERA_CAP_FLAGS_HAS_IMAGE_SURVEY_MODE: u32 = 32;

/// Version `1.0.0.0` packed into the `firmware_version` field: the major
/// version in the most significant byte, the other bytes zero.
pub const FIRMWARE_VERSION: u32 = 16777216;

/// Horizontal image resolution of the reported sensor, in pixels.
pub const RESOLUTION_H: u16 = 7952;

/// Vertical image resolution of the reported sensor, in pixels.
pub const RESOLUTION_V: u16 = 5304;

/// Version number of the camera definition file.
pub const CAM_DEFINITION_VERSION: u16 = 1;

/// Byte capacity of the fixed `vendor_name` and `model_name` fields.
pub const NAME_CAPACITY: usize = 32;

/// Byte capacity of the bounded `cam_definition_uri` field.
pub const URI_CAPACITY: usize = 140;

/// The heartbeat this component emits: a camera, not an autopilot, active,
/// with no mode flags set.
pub open spec fn is_camera_heartbeat(h: Heartbeat) -> bool {
    &&& h.custom_mode == 0
    &&& h.mavtype == MAV_TYPE_CAMERA
    &&& h.autopilot == MAV_AUTOPILOT_INVALID
    &&& h.base_mode == 0
    &&& h.system_status == MAV_STATE_ACTIVE
    &&& h.mavlink_version == MAVLINK_VERSION_FIELD
}

/// Builds the liveness frame. Every field is fixed by the component's role
/// as a camera, independent of identity and runtime state.
pub fn heartbeat_message() -> (h: Heartbeat)
    ensures
        is_camera_heartbeat(h),
{
    Heartbeat {
        custom_mode: 0,
        mavtype: MAV_TYPE_CAMERA,
        autopilot: MAV_AUTOPILOT_INVALID,
        base_mode: 0,
        system_status: MAV_STATE_ACTIVE,
        mavlink_version: MAVLINK_VERSION_FIELD,
    }
}

/// The acknowledgment owed for an inbound command: the same command code,
/// result `ACCEPTED`, addressed back to the commander.
pub open spec fn ack_for(command: u32, sender: FrameHeader) -> CommandAck {
    CommandAck {
        command: command,
        result: MAV_RESULT_ACCEPTED,
        target_system: sender.system_id,
        target_component: sender.component_id,
    }
}

/// Builds the acknowledgment for a command received from `sender`.
pub fn command_ack(command: u32, sender: &FrameHeader) -> (a: CommandAck)
    ensures
        a == ack_for(command, *sender),
{
    CommandAck {
        command: command,
        result: MAV_RESULT_ACCEPTED,
        target_system: sender.system_id,
        target_component: sender.component_id,
    }
}

/// The capability frame owed for the given names, URI and timestamp: the
/// fixed sensor constants, the names truncated or zero-padded to their
/// fixed capacity, and the URI's whole encoding.
pub open spec fn camera_information_ok(
    c: CameraInformation,
    vendor_name: Seq<char>,
    model_name: Seq<char>,
    definition_uri: Seq<char>,
    time_boot_ms: u32,
) -> bool {
    &&& c.time_boot_ms == time_boot_ms
    &&& c.firmware_version == FIRMWARE_VERSION
    &&& c.flags == CAMERA_CAP_FLAGS_CAPTURE_IMAGE | CAMERA_CAP_FLAGS_HAS_IMAGE_SURVEY_MODE
    &&& c.resolution_h == RESOLUTION_H
    &&& c.resolution_v == RESOLUTION_V
    &&& c.cam_definition_version == CAM_DEFINITION_VERSION
    &&& c.lens_id == 0
    &&& c.vendor_name@ == fixed_field(encode_utf8(vendor_name), NAME_CAPACITY as nat)
    &&& c.model_name@ == fixed_field(encode_utf8(model_name), NAME_CAPACITY as nat)
    &&& c.definition_uri@ == encode_utf8(definition_uri)
}

/// Builds the capability frame. The vendor and model names are truncated
/// to the first `NAME_CAPACITY` bytes of their UTF-8 encoding and
/// zero-padded; a `definition_uri` whose encoding exceeds `URI_CAPACITY`
/// is reported as an `EncodingError`, and no frame is produced.
pub fn camera_information(
    vendor_name: &str,
    model_name: &str,
    definition_uri: &str,
    time_boot_ms: u32,
) -> (r: Result<CameraInformation, EncodingError>)
    ensures
        encode_utf8(definition_uri@).len() <= URI_CAPACITY ==> (r matches Ok(c)
            && camera_information_ok(c, vendor_name@, model_name@, definition_uri@, time_boot_ms)),
        encode_utf8(definition_uri@).len() > URI_CAPACITY ==> (r matches Err(e) && e
            == EncodingError::CapacityExceeded),
{
    let uri = match string_to_uri::<URI_CAPACITY>(definition_uri) {
        Ok(u) => u,
        Err(e) => {
            return Err(e);
        },
    };
    Ok(
        CameraInformation {
            time_boot_ms,
            firmware_version: FIRMWARE_VERSION,
            flags: CAMERA_CAP_FLAGS_CAPTURE_IMAGE | CAMERA_CAP_FLAGS_HAS_IMAGE_SURVEY_MODE,
            resolution_h: RESOLUTION_H,
            resolution_v: RESOLUTION_V,
            cam_definition_version: CAM_DEFINITION_VERSION,
            lens_id: 0,
            vendor_name: str_to_fixed_arr::<NAME_CAPACITY>(vendor_name),
            model_name: str_to_fixed_arr::<NAME_CAPACITY>(model_name),
            definition_uri: uri,
        },
    )
}

} // verus!
