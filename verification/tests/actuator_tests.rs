use actuation::actuator::Actuator;
use actuation::command::Command;
use actuation::error::ActuationError;
use actuation::messenger::RecordingMessenger;
use actuation::port::Port;
use actuation::ratio::Ratio;
use std::collections::HashMap;

fn test_actuator(direction_sign: i8, pulled_out_position: Option<i64>) -> Actuator {
    Actuator {
        rotational_range: 9400,
        gear_ratio_num: 1,
        gear_ratio_den: 1,
        length_in: 12,
        length_out: 17,
        port: Port::D,
        direction_sign,
        pulled_out_position,
        target_position: 0,
    }
}

#[test]
fn extend_half_stroke_example() {
    let mut actuator = test_actuator(1, Some(1000));
    let mut messenger = RecordingMessenger::new();
    let result = actuator.start_extend_actuator(&mut messenger, Ratio::new(1, 2));
    assert_eq!(result, Ok(()));
    assert_eq!(actuator.target_position, -3700);
    assert_eq!(messenger.commands.len(), 1);
    assert_eq!(
        messenger.commands[0],
        Command::MotorGoToPosition { port: Port::D, max_power: 70, pwm: 100, target_angle: -3700 }
    );
}

#[test]
fn extend_full_ratio_targets_reference() {
    let mut actuator = test_actuator(1, Some(1000));
    let mut messenger = RecordingMessenger::new();
    assert_eq!(actuator.start_extend_actuator(&mut messenger, Ratio::new(1, 1)), Ok(()));
    assert_eq!(actuator.target_position, 1000);
}

#[test]
fn extend_zero_ratio_targets_far_end() {
    let mut actuator = test_actuator(1, Some(1000));
    let mut messenger = RecordingMessenger::new();
    assert_eq!(actuator.start_extend_actuator(&mut messenger, Ratio::new(0, 1)), Ok(()));
    assert_eq!(actuator.target_position, 1000 - 9400);
}

#[test]
fn extend_with_gear_reduction_and_negative_direction() {
    let mut actuator = test_actuator(-1, Some(1000));
    actuator.gear_ratio_num = 5;
    actuator.gear_ratio_den = 4;
    let mut messenger = RecordingMessenger::new();
    assert_eq!(actuator.start_extend_actuator(&mut messenger, Ratio::new(1, 2)), Ok(()));
    // motor-side range 9400 * 4 / 5 = 7520; half of it is 3760, added for sign -1
    assert_eq!(actuator.target_position, 1000 + 3760);
}

#[test]
fn extend_ratio_above_one_rejected() {
    let mut actuator = test_actuator(1, Some(1000));
    let mut messenger = RecordingMessenger::new();
    let result = actuator.start_extend_actuator(&mut messenger, Ratio::new(3, 2));
    assert_eq!(result, Err(ActuationError::InvalidArgument));
    assert_eq!(messenger.commands.len(), 0);
    assert_eq!(actuator.target_position, 0);
}

#[test]
fn extend_negative_ratio_rejected() {
    let mut actuator = test_actuator(1, Some(1000));
    let mut messenger = RecordingMessenger::new();
    let result = actuator.start_extend_actuator(&mut messenger, Ratio { num: -1, den: 10 });
    assert_eq!(result, Err(ActuationError::InvalidArgument));
    assert_eq!(messenger.commands.len(), 0);
}

#[test]
fn extend_before_calibration_rejected() {
    let mut actuator = test_actuator(1, None);
    let mut messenger = RecordingMessenger::new();
    let result = actuator.start_extend_actuator(&mut messenger, Ratio::new(1, 2));
    assert_eq!(result, Err(ActuationError::NotCalibrated));
    assert_eq!(messenger.commands.len(), 0);
}

#[test]
fn extend_publish_failure_surfaced() {
    let mut actuator = test_actuator(1, Some(1000));
    let mut messenger = RecordingMessenger::new();
    messenger.refuse = true;
    let result = actuator.start_extend_actuator(&mut messenger, Ratio::new(1, 2));
    assert_eq!(result, Err(ActuationError::PublishFailure));
    assert_eq!(messenger.commands.len(), 0);
    // the target was computed before delivery was attempted
    assert_eq!(actuator.target_position, -3700);
}

#[test]
fn check_finished_tolerance_window() {
    let mut actuator = test_actuator(1, Some(1000));
    actuator.target_position = 500;
    let mut positions: HashMap<u8, i64> = HashMap::new();
    let key = actuator.port.id();
    positions.insert(key, 599);
    assert!(actuator.check_extend_actuator_finished(&positions));
    positions.insert(key, 600);
    assert!(!actuator.check_extend_actuator_finished(&positions));
    positions.insert(key, 401);
    assert!(actuator.check_extend_actuator_finished(&positions));
    positions.insert(key, 400);
    assert!(!actuator.check_extend_actuator_finished(&positions));
    positions.insert(key, 500);
    assert!(actuator.check_extend_actuator_finished(&positions));
}

#[test]
fn init_calibration_issues_setup_commands() {
    let mut actuator = test_actuator(1, None);
    let mut messenger = RecordingMessenger::new();
    assert_eq!(actuator.init_calibration(&mut messenger), Ok(()));
    assert_eq!(messenger.commands.len(), 2);
    assert_eq!(
        messenger.commands[0],
        Command::EnableModeUpdates {
            mode: 2,
            port: Port::D,
            notifications_enabled: 1,
            delta: 5,
        }
    );
    assert_eq!(messenger.commands[1], Command::PortInformationRequest { port_id: Port::D.id() });
}

#[test]
fn init_calibration_publish_failure_surfaced() {
    let mut actuator = test_actuator(1, None);
    let mut messenger = RecordingMessenger::new();
    messenger.refuse = true;
    assert_eq!(actuator.init_calibration(&mut messenger), Err(ActuationError::PublishFailure));
    assert_eq!(messenger.commands.len(), 0);
}

#[test]
fn calibration_move_overshoots_toward_stall() {
    let mut actuator = test_actuator(1, None);
    let mut messenger = RecordingMessenger::new();
    let result = actuator.command_calibration_move(&mut messenger, Some(1000));
    assert_eq!(result, Ok(()));
    // twice the motor-side range 9400 past the starting sample
    assert_eq!(
        messenger.commands[0],
        Command::MotorGoToPosition { port: Port::D, max_power: 20, pwm: 100, target_angle: 19800 }
    );
}

#[test]
fn calibration_move_negative_direction() {
    let mut actuator = test_actuator(-1, None);
    let mut messenger = RecordingMessenger::new();
    assert_eq!(actuator.command_calibration_move(&mut messenger, Some(1000)), Ok(()));
    assert_eq!(
        messenger.commands[0],
        Command::MotorGoToPosition { port: Port::D, max_power: 20, pwm: 100, target_angle: -17800 }
    );
}

#[test]
fn calibration_move_without_sample_times_out() {
    let mut actuator = test_actuator(1, None);
    let mut messenger = RecordingMessenger::new();
    let result = actuator.command_calibration_move(&mut messenger, None);
    assert_eq!(result, Err(ActuationError::Timeout));
    assert_eq!(messenger.commands.len(), 0);
}

#[test]
fn finish_calibration_waits_for_both_conditions() {
    let mut actuator = test_actuator(1, None);
    assert!(!actuator.finish_calibration(false, Some(2000)));
    assert_eq!(actuator.pulled_out_position, None);
    assert!(!actuator.finish_calibration(true, None));
    assert_eq!(actuator.pulled_out_position, None);
    assert!(actuator.finish_calibration(true, Some(2000)));
    assert_eq!(actuator.pulled_out_position, Some(1900));
}

#[test]
fn finish_calibration_true_exactly_once() {
    let mut actuator = test_actuator(1, None);
    assert!(actuator.finish_calibration(true, Some(2000)));
    assert_eq!(actuator.pulled_out_position, Some(1900));
    // a later call with fresher feedback must not drift the reference
    assert!(!actuator.finish_calibration(true, Some(5000)));
    assert_eq!(actuator.pulled_out_position, Some(1900));
}

#[test]
fn finish_calibration_backs_off_against_direction() {
    let mut actuator = test_actuator(-1, None);
    assert!(actuator.finish_calibration(true, Some(2000)));
    assert_eq!(actuator.pulled_out_position, Some(2100));
}

#[test]
fn error_descriptions() {
    assert_eq!(ActuationError::PublishFailure.describe(), "command could not be delivered");
    assert_eq!(ActuationError::InvalidArgument.describe(), "argument out of range");
    assert_eq!(ActuationError::NotCalibrated.describe(), "mechanism is not calibrated");
    assert_eq!(ActuationError::Timeout.describe(), "timed out waiting for feedback");
}

#[test]
fn port_ids_are_distinct() {
    let ids = [Port::A.id(), Port::B.id(), Port::C.id(), Port::D.id()];
    for i in 0..ids.len() {
        for j in 0..ids.len() {
            if i != j {
                assert_ne!(ids[i], ids[j]);
            }
        }
    }
}

#[test]
fn extend_targets_rise_linearly_with_ratio() {
    // direction 1: a larger extension ratio commands a larger target, in
    // steps of the motor-side range over the denominator
    let expected: [i64; 5] = [-8400, -6050, -3700, -1350, 1000];
    for (i, target) in expected.iter().enumerate() {
        let mut actuator = test_actuator(1, Some(1000));
        let mut messenger = RecordingMessenger::new();
        let ratio = Ratio::new(i as i64, 4);
        assert_eq!(actuator.start_extend_actuator(&mut messenger, ratio), Ok(()));
        assert_eq!(actuator.target_position, *target);
    }
}
