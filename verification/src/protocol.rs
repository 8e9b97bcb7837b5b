//! The protocol state machine: the dispatch rule mapping each inbound
//! frame to the exact sequence of replies, and the per-cycle decisions of
//! the two long-lived loops (heartbeat emission and command polling).
//!
//! The loops themselves live in the unverified shell, which performs the
//! transport work each step prescribes: it sends the listed replies under
//! one mutual-exclusion lock shared with the heartbeat sender, sleeps for
//! the prescribed interval, and hands the next receive outcome back.
//! Transport `Io` failure on the receive path is handled by one uniform
//! policy: log and continue — the loop never terminates on it.

use vstd::prelude::*;
use vstd::utf8::encode_utf8;
use vstd::utf8::is_ascii_chars;
use vstd::utf8::is_ascii_chars_encode_utf8;
use crate::factory::ack_for;
use crate::factory::camera_information;
use crate::factory::camera_information_ok;
use crate::factory::command_ack;
use crate::factory::heartbeat_message;
use crate::factory::is_camera_heartbeat;
use crate::factory::URI_CAPACITY;
use crate::identity::ComponentIdentity;
use crate::messages::CommandLongData;
use crate::messages::FrameHeader;
use crate::messages::Heartbeat;
use crate::messages::InboundMessage;
use crate::messages::OutboundMessage;
use crate::messages::ReceiveOutcome;

verus! {

/// Milliseconds between two heartbeat emissions.
pub const HEARTBEAT_INTERVAL_MS: u32 = 1000;

/// Milliseconds between two receive attempts of the command-processing
/// loop.
pub const POLL_INTERVAL_MS: u32 = 100;

/// `MAV_CMD_REQUEST_MESSAGE`: the generic command code requesting that a
/// specific message be emitted.
pub const MAV_CMD_REQUEST_MESSAGE: u32 = 512;

/// The message id of `CAMERA_INFORMATION`, the target a request must name
/// for this component to answer with its capability frame.
pub const CAMERA_INFORMATION_MSG_ID: u32 = 259;

/// The URI of the camera definition file this component reports.
pub fn definition_uri_value() -> (r: &'static str)
    ensures
        r@ == definition_uri_chars(),
{
    "Nill"
}

/// The characters of the reported camera definition URI.
pub open spec fn definition_uri_chars() -> Seq<char> {
    "Nill"@
}

/// The canonical resolution rule for a capability request: the command is
/// the generic message request and its first parameter names the
/// `CAMERA_INFORMATION` message as the target.
pub open spec fn is_camera_info_request(c: CommandLongData) -> bool {
    c.command == MAV_CMD_REQUEST_MESSAGE && c.param1_whole == Some(CAMERA_INFORMATION_MSG_ID)
}

/// What the dispatch rule owes for one inbound frame: a command is
/// acknowledged exactly once, first, with `ACCEPTED`, addressed to its
/// sender; a command resolving to a capability request is answered with
/// exactly one additional capability frame; everything else is ignored.
pub open spec fn replies_ok(
    replies: Seq<OutboundMessage>,
    identity: ComponentIdentity,
    sender: FrameHeader,
    message: InboundMessage,
    time_boot_ms: u32,
) -> bool {
    match message {
        InboundMessage::CommandLong(c) => {
            &&& 1 <= replies.len() <= 2
            &&& replies[0] == OutboundMessage::CommandAck(ack_for(c.command, sender))
            &&& (replies.len() == 2 <==> is_camera_info_request(c))
            &&& (replies.len() == 2 ==> (replies[1] matches OutboundMessage::CameraInformation(
                info) && camera_information_ok(
                info,
                identity.vendor_name@,
                identity.model_name@,
                definition_uri_chars(),
                time_boot_ms,
            )))
        },
        _ => replies.len() == 0,
    }
}

/// The reported definition URI fits its bounded field, so building the
/// capability frame never fails.
pub proof fn lemma_definition_uri_fits()
    ensures
        encode_utf8(definition_uri_chars()).len() <= URI_CAPACITY,
{
    reveal_strlit("Nill");
    assert(is_ascii_chars("Nill"@));
    is_ascii_chars_encode_utf8("Nill"@);
}

/// Law: every inbound command is acknowledged exactly once — the first
/// reply is the `ACCEPTED` acknowledgment addressed to the command's
/// sender, and it stands strictly before any capability reply: no later
/// reply is an acknowledgment.
pub proof fn lemma_command_acked_exactly_once(
    replies: Seq<OutboundMessage>,
    identity: ComponentIdentity,
    sender: FrameHeader,
    c: CommandLongData,
    time_boot_ms: u32,
)
    requires
        replies_ok(replies, identity, sender, InboundMessage::CommandLong(c), time_boot_ms),
    ensures
        replies.len() >= 1,
        replies[0] == OutboundMessage::CommandAck(ack_for(c.command, sender)),
        forall|i: int| 1 <= i < replies.len() ==> !(replies[i] is CommandAck),
{
}

/// Law: a command that resolves to a camera-information request yields
/// exactly one additional capability reply after the acknowledgment; any
/// other command yields the acknowledgment alone.
pub proof fn lemma_capability_reply_count(
    replies: Seq<OutboundMessage>,
    identity: ComponentIdentity,
    sender: FrameHeader,
    c: CommandLongData,
    time_boot_ms: u32,
)
    requires
        replies_ok(replies, identity, sender, InboundMessage::CommandLong(c), time_boot_ms),
    ensures
        is_camera_info_request(c) ==> replies.len() == 2 && (replies[1] is CameraInformation),
        !is_camera_info_request(c) ==> replies.len() == 1,
{
}

/// Dispatches one received frame: builds the acknowledgment owed for a
/// command, and the capability reply where the command resolves to a
/// camera-information request. `time_boot_ms` stamps the capability
/// frame. No frame is produced for any other inbound message.
pub fn handle_frame(
    identity: &ComponentIdentity,
    sender: &FrameHeader,
    message: &InboundMessage,
    time_boot_ms: u32,
) -> (replies: Vec<OutboundMessage>)
    ensures
        replies_ok(replies@, *identity, *sender, *message, time_boot_ms),
{
    let mut replies: Vec<OutboundMessage> = Vec::new();
    match message {
        InboundMessage::CommandLong(c) => {
            replies.push(OutboundMessage::CommandAck(command_ack(c.command, sender)));
            let requested = c.command == MAV_CMD_REQUEST_MESSAGE && (match c.param1_whole {
                Some(target) => target == CAMERA_INFORMATION_MSG_ID,
                None => false,
            });
            if requested {
                proof {
                    lemma_definition_uri_fits();
                }
                match camera_information(
                    identity.vendor_name.as_str(),
                    identity.model_name.as_str(),
                    definition_uri_value(),
                    time_boot_ms,
                ) {
                    Ok(info) => replies.push(OutboundMessage::CameraInformation(info)),
                    Err(_) => (),
                }
            }
        },
        _ => (),
    }
    replies
}

/// What one polling cycle decides: the replies to send and how long to
/// sleep before the next receive attempt.
pub struct PollStep {
    pub replies: Vec<OutboundMessage>,
    pub sleep_ms: u32,
}

/// One cycle of the command-processing loop, as a pure decision from the
/// receive outcome. `WouldBlock` is absorbed: no reply, try again after
/// the poll interval. Transport `Io` failure follows the same non-fatal
/// policy: no reply, continue at the next cycle. A received frame is
/// dispatched. Every cycle prescribes the same sleep, so the loop never
/// runs faster than the configured poll interval.
pub fn poll_step(identity: &ComponentIdentity, outcome: &ReceiveOutcome, time_boot_ms: u32) -> (step:
    PollStep)
    ensures
        step.sleep_ms == POLL_INTERVAL_MS,
        (outcome matches ReceiveOutcome::Frame(sender, message) ==> replies_ok(
            step.replies@,
            *identity,
            *sender,
            *message,
            time_boot_ms,
        )),
        !(outcome is Frame) ==> step.replies@.len() == 0,
{
    let replies = match outcome {
        ReceiveOutcome::Frame(sender, message) => handle_frame(
            identity,
            sender,
            message,
            time_boot_ms,
        ),
        ReceiveOutcome::WouldBlock => Vec::new(),
        ReceiveOutcome::Io => Vec::new(),
    };
    PollStep { replies, sleep_ms: POLL_INTERVAL_MS }
}

/// What one heartbeat cycle decides: the frame to send and how long to
/// sleep before the next emission. A failed send changes nothing: the
/// next cycle emits the same frame at the same cadence.
pub struct HeartbeatStep {
    pub message: Heartbeat,
    pub sleep_ms: u32,
}

/// One cycle of the heartbeat loop: emit the camera heartbeat, then sleep
/// the fixed interval, whether or not the previous send succeeded.
pub fn heartbeat_step() -> (step: HeartbeatStep)
    ensures
        is_camera_heartbeat(step.message),
        step.sleep_ms == HEARTBEAT_INTERVAL_MS,
{
    HeartbeatStep { message: heartbeat_message(), sleep_ms: HEARTBEAT_INTERVAL_MS }
}

} // verus!
