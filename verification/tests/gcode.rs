use inti_e3m::config::MachineConfig;
use inti_e3m::tcode_de::Action;
use inti_e3m::tcode_de::LinearAction;
use inti_e3m::tcode_de::LinearModifier;
use inti_e3m::usb::create_gcode;
use inti_e3m::usb::synthesize;
use inti_e3m::usb::writer_step;
use inti_e3m::usb::Command;
use inti_e3m::usb::GCodeError;

fn test_config() -> MachineConfig {
    let mut c = MachineConfig::default();
    c.max_movement = 100;
    c.throw = 240;
    c
}

fn movement(magnitude: u32, modifier: Option<LinearModifier>) -> LinearAction {
    LinearAction { action: Action::Move, id: 0, magnitude, modifier }
}

#[test]
fn zero_magnitude_maps_to_distance_zero() {
    for max in [0u32, 1, 100, 4096, u32::MAX] {
        let a = movement(0, None);
        assert_eq!(a.magnitude_to_distance(max), 0);
    }
}

#[test]
fn magnitude_scales_as_a_decimal_fraction() {
    // One digit: 5 reads as five tenths.
    assert_eq!(movement(5, None).magnitude_to_distance(100), 5000);
    // Two digits: 50 reads as fifty hundredths.
    assert_eq!(movement(50, None).magnitude_to_distance(100), 5000);
    // Three digits: 500 reads as five hundred thousandths.
    assert_eq!(movement(500, None).magnitude_to_distance(100), 5000);
    // 99 of a 100 mm stroke is 99 mm.
    assert_eq!(movement(99, None).magnitude_to_distance(100), 9900);
    // A fractional result keeps its hundredths: 33 of 250 mm is 82.50 mm.
    assert_eq!(movement(33, None).magnitude_to_distance(250), 8250);
}

#[test]
fn plain_move_renders_position_with_offset_and_no_pacing() {
    let config = test_config();
    let bytes = create_gcode(&config, &movement(50, None), None).unwrap();
    // 50 of 100 mm plus the 140 mm offset.
    assert_eq!(bytes, b"G1 X190.00 \n".to_vec());
}

#[test]
fn non_move_actions_are_unsupported() {
    let config = test_config();
    for kind in [Action::Rotate, Action::Vibrate, Action::Auxiliary] {
        let action = LinearAction { action: kind, id: 0, magnitude: 10, modifier: None };
        assert_eq!(
            create_gcode(&config, &action, None).unwrap_err(),
            GCodeError::UnsupportedMovement(kind)
        );
    }
}

#[test]
fn repeated_speed_sends_no_pacing_line() {
    let config = test_config();
    let first = movement(10, Some(LinearModifier::Speed(5)));
    let second = movement(90, Some(LinearModifier::Speed(5)));
    let inst = synthesize(&config, &second, Some(first)).unwrap();
    assert_eq!(inst.pacing_centi, None);
    let bytes = create_gcode(&config, &second, Some(movement(10, Some(LinearModifier::Speed(5))))).unwrap();
    assert_eq!(bytes, b"G1 X230.00 \n".to_vec());
}

#[test]
fn changed_speed_sends_one_pacing_line_worth_six_hundred_times_the_speed() {
    let config = test_config();
    let previous = movement(10, Some(LinearModifier::Speed(3)));
    let action = movement(90, Some(LinearModifier::Speed(5)));
    let inst = synthesize(&config, &action, Some(previous)).unwrap();
    // 5 units per hundred milliseconds is 3000 units per minute.
    assert_eq!(inst.pacing_centi, Some(300000));
    let previous = movement(10, Some(LinearModifier::Speed(3)));
    let bytes = create_gcode(&config, &action, Some(previous)).unwrap();
    assert_eq!(bytes, b"G1 X230.00 \nF3000.00\n".to_vec());
}

#[test]
fn first_speed_always_sends_pacing() {
    let config = test_config();
    let action = movement(50, Some(LinearModifier::Speed(2)));
    let inst = synthesize(&config, &action, None).unwrap();
    assert_eq!(inst.pacing_centi, Some(120000));
}

#[test]
fn time_modifier_paces_to_cover_the_delta_in_the_requested_time() {
    let config = test_config();
    // 50 mm to travel in 1.2 s: 2500 mm per minute.
    let action = movement(50, Some(LinearModifier::Time(1200)));
    let inst = synthesize(&config, &action, None).unwrap();
    assert_eq!(inst.position_centi, 19000);
    assert_eq!(inst.pacing_centi, Some(250000));
    let bytes = create_gcode(&config, &action, None).unwrap();
    assert_eq!(bytes, b"G1 X190.00 \nF2500.00\n".to_vec());
}

#[test]
fn repeated_time_sends_no_pacing_line() {
    let config = test_config();
    let previous = movement(10, Some(LinearModifier::Time(800)));
    let action = movement(60, Some(LinearModifier::Time(800)));
    let inst = synthesize(&config, &action, Some(previous)).unwrap();
    assert_eq!(inst.pacing_centi, None);
}

#[test]
fn time_pacing_uses_the_distance_already_travelled() {
    let config = test_config();
    // From 20 mm to 60 mm in half a second: 4800 mm per minute.
    let previous = movement(20, Some(LinearModifier::Time(900)));
    let action = movement(60, Some(LinearModifier::Time(500)));
    let inst = synthesize(&config, &action, Some(previous)).unwrap();
    assert_eq!(inst.pacing_centi, Some(480000));
}

#[test]
fn zero_duration_paces_to_zero() {
    let config = test_config();
    let action = movement(60, Some(LinearModifier::Time(0)));
    let inst = synthesize(&config, &action, None).unwrap();
    assert_eq!(inst.pacing_centi, Some(0));
}

#[test]
fn writer_home_and_halt_write_fixed_lines_and_keep_state() {
    let config = test_config();
    let held = Some(movement(50, Some(LinearModifier::Speed(5))));
    let e = writer_step(&config, held, &Command::Home).unwrap();
    assert_eq!(e.bytes, b"G28 X\n".to_vec());
    assert_eq!(e.report, "G28 X".to_string());
    assert_eq!(e.previous, Some(movement(50, Some(LinearModifier::Speed(5)))));

    let e = writer_step(&config, e.previous, &Command::Halt).unwrap();
    assert_eq!(e.bytes, b"M112\n".to_vec());
    assert_eq!(e.report, "M112".to_string());
    assert_eq!(e.previous, Some(movement(50, Some(LinearModifier::Speed(5)))));
}

#[test]
fn writer_threads_the_previous_movement_through_steps() {
    let config = test_config();
    let first = Command::Movement(movement(10, Some(LinearModifier::Speed(5))));
    let e1 = writer_step(&config, None, &first).unwrap();
    assert_eq!(e1.bytes, b"G1 X150.00 \nF3000.00\n".to_vec());
    assert_eq!(e1.previous, Some(movement(10, Some(LinearModifier::Speed(5)))));

    // The same speed again: the pacing line is suppressed this time.
    let second = Command::Movement(movement(90, Some(LinearModifier::Speed(5))));
    let e2 = writer_step(&config, e1.previous, &second).unwrap();
    assert_eq!(e2.bytes, b"G1 X230.00 \n".to_vec());
    assert_eq!(e2.previous, Some(movement(90, Some(LinearModifier::Speed(5)))));
}

#[test]
fn writer_fails_on_unsupported_movement() {
    let config = test_config();
    let action = LinearAction { action: Action::Rotate, id: 1, magnitude: 5, modifier: None };
    assert_eq!(
        writer_step(&config, None, &Command::Movement(action)).unwrap_err(),
        GCodeError::UnsupportedMovement(Action::Rotate)
    );
}
