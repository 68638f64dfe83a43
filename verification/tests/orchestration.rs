use inti_e3m::extoy_de::process_extoy_packet;
use inti_e3m::extoy_de::ExtoyPacket;
use inti_e3m::server::classify_error;
use inti_e3m::server::run_outcome;
use inti_e3m::server::ErrorKind;
use inti_e3m::server::ServerError;
use inti_e3m::tcode_de::Action;
use inti_e3m::tcode_de::LinearModifier;
use inti_e3m::tui::bar::ServicesState;
use inti_e3m::tui::bar::Status;
use inti_e3m::usb::GCodeError;
use inti_e3m::usb::IoErrorKind;
use inti_e3m::websocket::handshake_frame;
use inti_e3m::websocket::intiface_process_frame;
use inti_e3m::websocket::ClientError;

#[test]
fn position_packet_becomes_a_rescaled_movement() {
    let packet = ExtoyPacket::Position { duration: 1200, position: 50 };
    let action = process_extoy_packet(&packet).unwrap();
    assert_eq!(action.action, Action::Move);
    assert_eq!(action.id, 0);
    assert_eq!(action.magnitude, 50);
    // 1200 ms scaled by 10/50.
    assert_eq!(action.modifier, Some(LinearModifier::Time(240)));
}

#[test]
fn position_packet_caps_magnitude_at_ninety_nine() {
    let packet = ExtoyPacket::Position { duration: 100, position: 150 };
    let action = process_extoy_packet(&packet).unwrap();
    assert_eq!(action.magnitude, 99);
}

#[test]
fn speed_packet_is_dropped_not_fatal() {
    let packet = ExtoyPacket::Speed { speed: 10, upper: 90, lower: 10 };
    assert_eq!(process_extoy_packet(&packet), None);
}

#[test]
fn handshake_frame_is_the_fixed_identification_object() {
    assert_eq!(
        handshake_frame(),
        "{\"identifier\":\"UpYourEnder\",\"address\":\"2\",\"version\":0}".to_string()
    );
}

#[test]
fn client_frames_drop_their_trailing_byte_before_decoding() {
    // The frame carries one byte past the command text.
    let action = intiface_process_frame(b"l3050\n").unwrap();
    assert_eq!(action.magnitude, 50);
    // An empty frame reads as an invalid command rather than anything worse.
    assert!(intiface_process_frame(b"").is_err());
}

#[test]
fn unreachable_endpoint_classifies_as_a_listener_problem() {
    let e = ServerError::Websocket(ClientError::Io(IoErrorKind::UnexpectedEof));
    assert_eq!(classify_error(&e), ErrorKind::Websocket("Invalid URI".to_string()));
    let e = ServerError::Websocket(ClientError::Tungstenite);
    assert_eq!(classify_error(&e), ErrorKind::Websocket("Error".to_string()));
}

#[test]
fn device_problems_distinguish_permission_and_presence() {
    let e = ServerError::Gcode(GCodeError::Io(IoErrorKind::PermissionDenied));
    assert_eq!(classify_error(&e), ErrorKind::GCode("No permission!".to_string()));
    let e = ServerError::Gcode(GCodeError::Io(IoErrorKind::NotFound));
    assert_eq!(classify_error(&e), ErrorKind::GCode("Not connected!".to_string()));
    let e = ServerError::Gcode(GCodeError::UnsupportedMovement(Action::Rotate));
    assert_eq!(classify_error(&e), ErrorKind::GCode("Error".to_string()));
}

#[test]
fn lost_task_reads_as_a_dead_connection() {
    assert_eq!(
        classify_error(&ServerError::Tokio),
        ErrorKind::Websocket("Not connected!".to_string())
    );
}

#[test]
fn failed_run_cancels_and_publishes_exactly_one_event() {
    let outcome = run_outcome(&Err(ServerError::Websocket(ClientError::Io(
        IoErrorKind::UnexpectedEof,
    ))));
    assert!(outcome.cancel);
    assert_eq!(outcome.event, Some(ErrorKind::Websocket("Invalid URI".to_string())));
}

#[test]
fn clean_run_cancels_nothing_and_publishes_nothing() {
    let outcome = run_outcome(&Ok(()));
    assert!(!outcome.cancel);
    assert_eq!(outcome.event, None);
}

#[test]
fn service_errors_stop_only_their_own_subsystem() {
    let mut state = ServicesState::new();
    state.set_running(true);
    assert_eq!(state.websocket_status, Status::Okay);
    assert_eq!(state.usb_status, Status::Okay);

    state.apply_error(ErrorKind::Websocket("Invalid URI".to_string()));
    assert_eq!(state.websocket_status, Status::Stopped("Invalid URI".to_string()));
    assert_eq!(state.usb_status, Status::Okay);

    state.apply_error(ErrorKind::GCode("No permission!".to_string()));
    assert_eq!(state.usb_status, Status::Stopped("No permission!".to_string()));
}

#[test]
fn latest_instruction_is_recorded_verbatim() {
    let mut state = ServicesState::new();
    state.set_latest_gcode("G1 X190.00 ".to_string());
    assert_eq!(state.latest_gcode, "G1 X190.00 ".to_string());
    assert_eq!(state.websocket_status, Status::NotRunning);
}
