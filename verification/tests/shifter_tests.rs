use actuation::command::Command;
use actuation::error::ActuationError;
use actuation::messenger::RecordingMessenger;
use actuation::port::Port;
use actuation::shifter::ShiftOutcome;
use actuation::shifter::Shifter;

#[test]
fn shifter_new_starts_blank() {
    let shifter = Shifter::new(vec![0, 180], Port::C);
    assert_eq!(shifter.angle_diffs, vec![0, 180]);
    assert_eq!(shifter.start_position, None);
    assert_eq!(shifter.port, Port::C);
    assert_eq!(shifter.gear, None);
}

#[test]
fn shift_issues_one_command_and_repeat_is_noop() {
    let mut shifter = Shifter::new(vec![0, 180], Port::C);
    let mut messenger = RecordingMessenger::new();
    shifter.finish_calibration(500);
    let first = shifter.shift(&mut messenger, 1);
    assert_eq!(first, Ok(ShiftOutcome::Commanded));
    assert_eq!(shifter.gear, Some(1));
    assert_eq!(messenger.commands.len(), 1);
    assert_eq!(
        messenger.commands[0],
        Command::MotorGoToPosition { port: Port::C, max_power: 80, pwm: 100, target_angle: 680 }
    );
    let second = shifter.shift(&mut messenger, 1);
    assert_eq!(second, Ok(ShiftOutcome::AlreadySelected));
    assert_eq!(messenger.commands.len(), 1);
    assert_eq!(shifter.gear, Some(1));
}

#[test]
fn shift_to_missing_gear_changes_nothing() {
    let mut shifter = Shifter::new(vec![0, 180], Port::C);
    let mut messenger = RecordingMessenger::new();
    shifter.finish_calibration(500);
    assert_eq!(shifter.shift(&mut messenger, 2), Ok(ShiftOutcome::NoSuchGear));
    assert_eq!(messenger.commands.len(), 0);
    assert_eq!(shifter.gear, None);
}

#[test]
fn shift_before_calibration_rejected() {
    let mut shifter = Shifter::new(vec![0, 180], Port::C);
    let mut messenger = RecordingMessenger::new();
    assert_eq!(shifter.shift(&mut messenger, 1), Err(ActuationError::NotCalibrated));
    assert_eq!(messenger.commands.len(), 0);
    assert_eq!(shifter.gear, None);
}

#[test]
fn shift_publish_failure_surfaced() {
    let mut shifter = Shifter::new(vec![0, 180], Port::C);
    let mut messenger = RecordingMessenger::new();
    messenger.refuse = true;
    shifter.finish_calibration(500);
    assert_eq!(shifter.shift(&mut messenger, 1), Err(ActuationError::PublishFailure));
    assert_eq!(messenger.commands.len(), 0);
    assert_eq!(shifter.gear, None);
}

#[test]
fn shifter_calibration_drives_negative_for_rising_offsets() {
    let mut shifter = Shifter::new(vec![0, 180], Port::C);
    let mut messenger = RecordingMessenger::new();
    assert_eq!(shifter.init_calibration(&mut messenger), Ok(()));
    assert_eq!(
        messenger.commands[0],
        Command::MotorGoToPosition { port: Port::C, max_power: 60, pwm: 50, target_angle: -10000 }
    );
}

#[test]
fn shifter_calibration_drives_positive_for_falling_offsets() {
    let mut shifter = Shifter::new(vec![180, 0], Port::C);
    let mut messenger = RecordingMessenger::new();
    assert_eq!(shifter.init_calibration(&mut messenger), Ok(()));
    assert_eq!(
        messenger.commands[0],
        Command::MotorGoToPosition { port: Port::C, max_power: 60, pwm: 50, target_angle: 10000 }
    );
}

#[test]
fn shifter_calibration_single_gear_is_noop() {
    let mut shifter = Shifter::new(vec![0], Port::C);
    let mut messenger = RecordingMessenger::new();
    assert_eq!(shifter.init_calibration(&mut messenger), Ok(()));
    assert_eq!(messenger.commands.len(), 0);
}

#[test]
fn shifter_calibration_publish_failure_surfaced() {
    let mut shifter = Shifter::new(vec![0, 180], Port::C);
    let mut messenger = RecordingMessenger::new();
    messenger.refuse = true;
    assert_eq!(shifter.init_calibration(&mut messenger), Err(ActuationError::PublishFailure));
    assert_eq!(messenger.commands.len(), 0);
}

#[test]
fn shifter_finish_records_reference() {
    let mut shifter = Shifter::new(vec![0, 180], Port::C);
    shifter.finish_calibration(500);
    assert_eq!(shifter.start_position, Some(500));
    // reading again after more travel overwrites the reference
    shifter.finish_calibration(650);
    assert_eq!(shifter.start_position, Some(650));
}
