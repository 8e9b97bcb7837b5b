use mavlink_camera::clock::current_time_boot_ms;
use mavlink_camera::clock::time_boot_ms_from;
use mavlink_camera::encode::str_to_fixed_arr;
use mavlink_camera::encode::string_to_uri;
use mavlink_camera::factory::camera_information;
use mavlink_camera::factory::command_ack;
use mavlink_camera::factory::heartbeat_message;
use mavlink_camera::identity::ComponentIdentity;
use mavlink_camera::messages::CommandLongData;
use mavlink_camera::messages::EncodingError;
use mavlink_camera::messages::FrameHeader;
use mavlink_camera::messages::InboundMessage;
use mavlink_camera::messages::OutboundMessage;
use mavlink_camera::messages::ReceiveOutcome;
use mavlink_camera::protocol::handle_frame;
use mavlink_camera::protocol::heartbeat_step;
use mavlink_camera::protocol::poll_step;

fn test_identity() -> ComponentIdentity {
    ComponentIdentity::new(
        100,
        100,
        String::from("Davis Vendor"),
        String::from("Sony a7r ii"),
    )
}

fn padded(src: &str, n: usize) -> Vec<u8> {
    let mut v = src.as_bytes().to_vec();
    v.truncate(n);
    v.resize(n, 0);
    v
}

#[test]
fn heartbeat_is_camera_and_invalid_autopilot() {
    let h = heartbeat_message();
    assert_eq!(h.mavtype, 30); // MAV_TYPE_CAMERA
    assert_eq!(h.autopilot, 8); // MAV_AUTOPILOT_INVALID
    assert_eq!(h.system_status, 4); // MAV_STATE_ACTIVE
    assert_eq!(h.base_mode, 0);
    assert_eq!(h.custom_mode, 0);
    assert_eq!(h.mavlink_version, 3);
}

#[test]
fn heartbeat_step_keeps_fixed_cadence() {
    let step = heartbeat_step();
    assert_eq!(step.sleep_ms, 1000);
    assert_eq!(step.message, heartbeat_message());
}

#[test]
fn command_ack_is_accepted_and_addressed_to_sender() {
    let sender = FrameHeader { system_id: 7, component_id: 9 };
    let ack = command_ack(176, &sender);
    assert_eq!(ack.command, 176);
    assert_eq!(ack.result, 0); // MAV_RESULT_ACCEPTED
    assert_eq!(ack.target_system, 7);
    assert_eq!(ack.target_component, 9);
}

#[test]
fn request_message_for_camera_information_yields_ack_then_reply() {
    // Inbound COMMAND_LONG{command=REQUEST_MESSAGE, param1=259.0} from
    // (system=1, component=1); 259.0 carries the whole number 259.
    let identity = test_identity();
    let sender = FrameHeader { system_id: 1, component_id: 1 };
    let cmd = CommandLongData { command: 512, param1_whole: Some(259) };
    let replies = handle_frame(&identity, &sender, &InboundMessage::CommandLong(cmd), 42);
    assert_eq!(replies.len(), 2);
    match &replies[0] {
        OutboundMessage::CommandAck(ack) => {
            assert_eq!(ack.command, 512);
            assert_eq!(ack.result, 0);
            assert_eq!(ack.target_system, 1);
            assert_eq!(ack.target_component, 1);
        }
        other => panic!("expected an acknowledgment first, got {other:?}"),
    }
    match &replies[1] {
        OutboundMessage::CameraInformation(info) => {
            assert_eq!(info.vendor_name.to_vec(), padded("Davis Vendor", 32));
            assert_eq!(info.model_name.to_vec(), padded("Sony a7r ii", 32));
            assert_eq!(info.resolution_h, 7952);
            assert_eq!(info.resolution_v, 5304);
            assert_eq!(info.flags, 2 | 32);
            assert_eq!(info.firmware_version, 1 << 24);
            assert_eq!(info.cam_definition_version, 1);
            assert_eq!(info.lens_id, 0);
            assert_eq!(info.time_boot_ms, 42);
            assert_eq!(info.definition_uri, b"Nill".to_vec());
        }
        other => panic!("expected a capability reply second, got {other:?}"),
    }
}

#[test]
fn unrelated_command_yields_ack_only() {
    let identity = test_identity();
    let sender = FrameHeader { system_id: 3, component_id: 4 };
    let cmd = CommandLongData { command: 31010, param1_whole: None };
    let replies = handle_frame(&identity, &sender, &InboundMessage::CommandLong(cmd), 0);
    assert_eq!(replies.len(), 1);
    match &replies[0] {
        OutboundMessage::CommandAck(ack) => {
            assert_eq!(ack.command, 31010);
            assert_eq!(ack.result, 0);
            assert_eq!(ack.target_system, 3);
            assert_eq!(ack.target_component, 4);
        }
        other => panic!("expected an acknowledgment, got {other:?}"),
    }
}

#[test]
fn request_message_for_other_target_yields_ack_only() {
    let identity = test_identity();
    let sender = FrameHeader { system_id: 1, component_id: 1 };
    // REQUEST_MESSAGE, but the target is not CAMERA_INFORMATION.
    let cmd = CommandLongData { command: 512, param1_whole: Some(260) };
    let replies = handle_frame(&identity, &sender, &InboundMessage::CommandLong(cmd), 0);
    assert_eq!(replies.len(), 1);
    // A fractional first parameter names no message at all.
    let cmd = CommandLongData { command: 512, param1_whole: None };
    let replies = handle_frame(&identity, &sender, &InboundMessage::CommandLong(cmd), 0);
    assert_eq!(replies.len(), 1);
}

#[test]
fn non_command_frames_are_ignored() {
    let identity = test_identity();
    let sender = FrameHeader { system_id: 1, component_id: 1 };
    let replies = handle_frame(&identity, &sender, &InboundMessage::Heartbeat, 0);
    assert!(replies.is_empty());
    let replies = handle_frame(&identity, &sender, &InboundMessage::Other, 0);
    assert!(replies.is_empty());
}

#[test]
fn poll_step_absorbs_would_block_at_fixed_cadence() {
    let identity = test_identity();
    // However often the receive attempt reports WouldBlock, every cycle
    // prescribes the full poll interval before the next attempt.
    for _ in 0..3 {
        let step = poll_step(&identity, &ReceiveOutcome::WouldBlock, 0);
        assert_eq!(step.sleep_ms, 100);
        assert!(step.replies.is_empty());
    }
}

#[test]
fn poll_step_continues_on_io_error() {
    let identity = test_identity();
    let step = poll_step(&identity, &ReceiveOutcome::Io, 0);
    assert_eq!(step.sleep_ms, 100);
    assert!(step.replies.is_empty());
}

#[test]
fn poll_step_dispatches_received_frames() {
    let identity = test_identity();
    let sender = FrameHeader { system_id: 1, component_id: 1 };
    let cmd = CommandLongData { command: 512, param1_whole: Some(259) };
    let outcome = ReceiveOutcome::Frame(sender, InboundMessage::CommandLong(cmd));
    let step = poll_step(&identity, &outcome, 5);
    assert_eq!(step.sleep_ms, 100);
    assert_eq!(step.replies.len(), 2);
    assert!(matches!(step.replies[0], OutboundMessage::CommandAck(_)));
    assert!(matches!(step.replies[1], OutboundMessage::CameraInformation(_)));
}

#[test]
fn short_name_is_zero_padded() {
    let arr: [u8; 8] = str_to_fixed_arr("abc");
    assert_eq!(arr, [b'a', b'b', b'c', 0, 0, 0, 0, 0]);
}

#[test]
fn long_name_is_truncated_to_capacity() {
    let arr: [u8; 4] = str_to_fixed_arr("abcdefgh");
    assert_eq!(arr, [b'a', b'b', b'c', b'd']);
}

#[test]
fn name_of_exact_capacity_is_kept_whole() {
    let arr: [u8; 4] = str_to_fixed_arr("wxyz");
    assert_eq!(arr, [b'w', b'x', b'y', b'z']);
}

#[test]
fn empty_name_is_all_zeros() {
    let arr: [u8; 4] = str_to_fixed_arr("");
    assert_eq!(arr, [0, 0, 0, 0]);
}

#[test]
fn multibyte_name_is_truncated_by_bytes() {
    // "é" encodes as two bytes; truncation counts UTF-8 bytes, not
    // characters.
    let arr: [u8; 3] = str_to_fixed_arr("éé");
    assert_eq!(arr, [0xC3, 0xA9, 0xC3]);
}

#[test]
fn uri_within_capacity_is_kept_whole() {
    let uri = string_to_uri::<140>("Nill").expect("four bytes fit");
    assert_eq!(uri, b"Nill".to_vec());
}

#[test]
fn uri_over_capacity_is_an_encoding_error() {
    let long = "x".repeat(141);
    let r = string_to_uri::<140>(&long);
    assert_eq!(r, Err(EncodingError::CapacityExceeded));
}

#[test]
fn uri_of_exact_capacity_is_kept_whole() {
    let exact = "u".repeat(140);
    let uri = string_to_uri::<140>(&exact).expect("exactly at capacity fits");
    assert_eq!(uri.len(), 140);
}

#[test]
fn camera_information_reports_overlong_uri() {
    let long = "x".repeat(141);
    let r = camera_information("Davis Vendor", "Sony a7r ii", &long, 0);
    match r {
        Err(e) => assert_eq!(e, EncodingError::CapacityExceeded),
        Ok(_) => panic!("an overlong URI must be reported, not encoded"),
    }
}

#[test]
fn camera_information_truncates_overlong_names() {
    let long_vendor = "v".repeat(40);
    let info = camera_information(&long_vendor, "m", "Nill", 9).expect("URI fits");
    assert_eq!(info.vendor_name.to_vec(), padded(&long_vendor, 32));
    assert_eq!(info.model_name.to_vec(), padded("m", 32));
    assert_eq!(info.time_boot_ms, 9);
}

#[test]
fn time_boot_ms_is_derived_from_microseconds() {
    assert_eq!(time_boot_ms_from(1_234_567), 1234);
    assert_eq!(time_boot_ms_from(999), 0);
    assert_eq!(time_boot_ms_from(0), 0);
    assert_eq!(time_boot_ms_from(-5), 0);
    // Truncated to the 32-bit field.
    assert_eq!(time_boot_ms_from(4_294_967_298_500), 2);
}

#[test]
fn platform_clock_is_readable_or_absent() {
    // The platform call may fail; either outcome is a valid stamp source.
    let _ = current_time_boot_ms();
}
