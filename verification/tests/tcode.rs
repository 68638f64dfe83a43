use inti_e3m::tcode_de::process_linear_token;
use inti_e3m::tcode_de::Action;
use inti_e3m::tcode_de::LinearAction;
use inti_e3m::tcode_de::LinearActionError;
use inti_e3m::tcode_de::LinearModifier;

#[test]
fn decodes_plain_move_frame() {
    let r = process_linear_token(b"l3050").unwrap();
    assert_eq!(
        r,
        LinearAction {
            action: Action::Move,
            id: 3,
            magnitude: 50,
            modifier: None,
        }
    );
}

#[test]
fn decodes_time_marker_frame() {
    let r = process_linear_token(b"l30500i1200").unwrap();
    assert_eq!(r.action, Action::Move);
    assert_eq!(r.id, 3);
    assert_eq!(r.magnitude, 500);
    assert_eq!(r.modifier, Some(LinearModifier::Time(1200)));
}

#[test]
fn decodes_speed_marker_frame_upper_case() {
    let r = process_linear_token(b"L3050S200").unwrap();
    assert_eq!(r.magnitude, 50);
    assert_eq!(r.modifier, Some(LinearModifier::Speed(200)));
}

#[test]
fn decodes_all_motion_kinds() {
    assert_eq!(process_linear_token(b"r100").unwrap().action, Action::Rotate);
    assert_eq!(process_linear_token(b"V100").unwrap().action, Action::Vibrate);
    assert_eq!(process_linear_token(b"a100").unwrap().action, Action::Auxiliary);
}

#[test]
fn short_frames_fail_as_invalid_command() {
    assert_eq!(
        process_linear_token(b"").unwrap_err(),
        LinearActionError::CommandInvalid
    );
    assert_eq!(
        process_linear_token(b"l").unwrap_err(),
        LinearActionError::CommandInvalid
    );
    assert_eq!(
        process_linear_token(b"l3").unwrap_err(),
        LinearActionError::CommandInvalid
    );
}

#[test]
fn unknown_opcode_names_the_byte() {
    assert_eq!(
        process_linear_token(b"x3050").unwrap_err(),
        LinearActionError::InvalidOpcode('x')
    );
    assert_eq!(
        process_linear_token(b"Q99").unwrap_err(),
        LinearActionError::InvalidOpcode('Q')
    );
}

#[test]
fn non_digit_id_names_the_byte() {
    assert_eq!(
        process_linear_token(b"lx50").unwrap_err(),
        LinearActionError::InvalidID('x')
    );
}

#[test]
fn malformed_magnitude_is_a_numeric_error() {
    assert_eq!(
        process_linear_token(b"l3abc").unwrap_err(),
        LinearActionError::ParseInt
    );
    // Digits before the marker are required.
    assert_eq!(
        process_linear_token(b"l3i1200").unwrap_err(),
        LinearActionError::ParseInt
    );
    // Digits after the marker are required too.
    assert_eq!(
        process_linear_token(b"l3050i").unwrap_err(),
        LinearActionError::ParseInt
    );
    // A value beyond what fits is a numeric error.
    assert_eq!(
        process_linear_token(b"l39999999999999").unwrap_err(),
        LinearActionError::ParseInt
    );
}

#[test]
fn plus_sign_is_accepted_like_a_standard_parse() {
    let r = process_linear_token(b"l3+50").unwrap();
    assert_eq!(r.magnitude, 50);
}

#[test]
fn invalid_text_is_a_utf8_error() {
    assert_eq!(
        process_linear_token(&[108, 51, 0xFF, 0xFE]).unwrap_err(),
        LinearActionError::Utf8
    );
    // A stray continuation byte after the marker.
    assert_eq!(
        process_linear_token(&[108, 51, 53, 105, 0x80]).unwrap_err(),
        LinearActionError::Utf8
    );
}

#[test]
fn well_formed_foreign_text_is_a_numeric_error() {
    // A two-byte encoding is valid text but not a number.
    assert_eq!(
        process_linear_token(&[108, 51, 0xC3, 0xA9]).unwrap_err(),
        LinearActionError::ParseInt
    );
}

#[test]
fn first_marker_wins() {
    // The first marker splits the frame; a second marker byte lands in the
    // modifier region and spoils its number.
    assert_eq!(
        process_linear_token(b"l3i5s6").unwrap_err(),
        LinearActionError::ParseInt
    );
}
