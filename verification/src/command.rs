use vstd::prelude::*;
use crate::port::Port;

verus! {

/// Mode selecting absolute-position reporting in an `EnableModeUpdates`
/// command.
pub const POSITION_UPDATE_MODE: u8 = 2;

/// Notification threshold, in encoder units, between two streamed position
/// updates.
pub const POSITION_UPDATE_DELTA: u8 = 5;

/// Value of `notifications_enabled` that switches streaming on.
pub const NOTIFICATIONS_ON: u8 = 1;

/// Power of the low-power profile used for the actuator calibration move, so
/// that stalling against the end-stop is safe rather than damaging.
pub const CALIBRATION_POWER: u8 = 20;

/// Duty cycle of the actuator calibration profile.
pub const CALIBRATION_PWM: u8 = 100;

/// Power of the ordinary operating profile for actuator extension moves.
pub const OPERATING_POWER: u8 = 70;

/// Duty cycle of the operating profile.
pub const OPERATING_PWM: u8 = 100;

/// Power of the shifter calibration profile.
pub const SHIFT_CALIBRATION_POWER: u8 = 60;

/// Duty cycle of the shifter calibration profile.
pub const SHIFT_CALIBRATION_PWM: u8 = 50;

/// Power of the gear-shift profile.
pub const SHIFT_POWER: u8 = 80;

/// Duty cycle of the gear-shift profile.
pub const SHIFT_PWM: u8 = 100;

/// One outbound command to the motor hardware.
///
/// The crate only decides which commands to issue and in which order; the
/// wire encoding and the delivery are the command sink's business.
#[derive(Clone, Copy, Debug, PartialEq, Eq, Structural)]
pub enum Command {
    /// Start periodic position streaming for one port.
    EnableModeUpdates { mode: u8, port: Port, notifications_enabled: u8, delta: u8 },
    /// One-shot request for the current position of one port.
    PortInformationRequest { port_id: u8 },
    /// Absolute move command: drive the motor on `port` to `target_angle`
    /// encoder units at the given power profile.
    MotorGoToPosition { port: Port, max_power: u8, pwm: u8, target_angle: i64 },
}

} // verus!
