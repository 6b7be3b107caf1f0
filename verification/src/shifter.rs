use vstd::prelude::*;
use crate::actuator::MAX_POSITION;
use crate::command::Command;
use crate::command::SHIFT_CALIBRATION_POWER;
use crate::command::SHIFT_CALIBRATION_PWM;
use crate::command::SHIFT_POWER;
use crate::command::SHIFT_PWM;
use crate::error::ActuationError;
use crate::messenger::Messenger;
use crate::port::Port;

verus! {

/// Magnitude, in encoder units, of the shifter calibration move: far enough
/// to run the mechanism to a physical extreme from anywhere in its travel.
pub const SHIFT_CALIBRATION_MAGNITUDE: i64 = 10_000;

/// The direction of the shifter calibration move, read off the gear table:
/// when the offsets fall from the first gear to the second, the extreme lies
/// in the positive direction, otherwise in the negative.
pub open spec fn shift_calibration_sign(angle_diffs: Seq<i64>) -> int
    recommends
        angle_diffs.len() >= 2,
{
    if angle_diffs[1] < angle_diffs[0] {
        1
    } else {
        -1
    }
}

/// What a call of [`Shifter::shift`] did, when no error stopped it.
#[derive(Clone, Copy, Debug, PartialEq, Eq, Structural)]
pub enum ShiftOutcome {
    /// The move command for the requested gear was delivered and the gear
    /// recorded.
    Commanded,
    /// The requested gear was already selected: nothing was issued.
    AlreadySelected,
    /// The requested gear has no entry in the gear table: nothing was
    /// issued and nothing changed.  A warning outcome, not an error.
    NoSuchGear,
}

/// One discrete multi-position selector (gear shifter): its gear table, and
/// the calibration reference and current gear it has acquired.
pub struct Shifter {
    /// Encoder offset of each gear, relative to the calibrated start
    /// position; the index is the gear number.
    pub angle_diffs: Vec<i64>,
    /// Absolute encoder value recorded by calibration; unset until
    /// calibration completes.
    pub start_position: Option<i64>,
    /// The motor channel this shifter drives, for its whole lifetime.
    pub port: Port,
    /// Currently selected gear; `None` until the first successful shift.
    pub gear: Option<usize>,
}

/// The fields of `post` equal those of `pre`, except that `start_position`
/// may differ.
pub open spec fn unchanged_except_start(pre: Shifter, post: Shifter) -> bool {
    &&& post.angle_diffs@ == pre.angle_diffs@
    &&& post.port == pre.port
    &&& post.gear == pre.gear
}

/// The fields of `post` equal those of `pre`, except that `gear` may
/// differ.
pub open spec fn unchanged_except_gear(pre: Shifter, post: Shifter) -> bool {
    &&& post.angle_diffs@ == pre.angle_diffs@
    &&& post.port == pre.port
    &&& post.start_position == pre.start_position
}

impl Shifter {
    /// Well-formedness: every gear offset and acquired position respects the
    /// machine limit on encoder values, and a recorded gear has an entry in
    /// the gear table.
    pub open spec fn wf(self) -> bool {
        &&& forall|i: int|
            0 <= i < self.angle_diffs@.len() ==> -MAX_POSITION <= #[trigger] self.angle_diffs@[i]
                <= MAX_POSITION
        &&& (self.start_position matches Some(s) ==> -MAX_POSITION <= s <= MAX_POSITION)
        &&& (self.gear matches Some(g) ==> g < self.angle_diffs@.len())
    }

    /// A shifter over the given gear table and port, not yet calibrated and
    /// with no gear selected.
    pub fn new(angle_diffs: Vec<i64>, port: Port) -> (r: Shifter)
        requires
            forall|i: int|
                0 <= i < angle_diffs@.len() ==> -MAX_POSITION <= #[trigger] angle_diffs@[i]
                    <= MAX_POSITION,
        ensures
            r.angle_diffs@ == angle_diffs@,
            r.start_position is None,
            r.port == port,
            r.gear is None,
            r.wf(),
    {
        Shifter { angle_diffs, start_position: None, port, gear: None }
    }

    /// Start calibration: command the motor to a physical extreme, so that
    /// the position read afterwards is a usable reference.
    ///
    /// With fewer than two gears there is nothing to tell apart and the call
    /// is a no-op.  Otherwise the move goes
    /// [`SHIFT_CALIBRATION_MAGNITUDE`] units in the direction of
    /// [`shift_calibration_sign`], at the shifter calibration profile.
    pub fn init_calibration<M: Messenger>(&mut self, messenger: &mut M) -> (r: Result<
        (),
        ActuationError,
    >)
        requires
            old(self).wf(),
        ensures
            *final(self) == *old(self),
            old(messenger).reliable() ==> (r matches Ok(()) && final(messenger).reliable()),
            old(self).angle_diffs@.len() < 2 ==> r == Ok::<(), ActuationError>(())
                && final(messenger).sent() == old(messenger).sent(),
            old(self).angle_diffs@.len() >= 2 ==> {
                let command = (Command::MotorGoToPosition {
                    port: old(self).port,
                    max_power: SHIFT_CALIBRATION_POWER,
                    pwm: SHIFT_CALIBRATION_PWM,
                    target_angle: (SHIFT_CALIBRATION_MAGNITUDE * shift_calibration_sign(
                        old(self).angle_diffs@,
                    )) as i64,
                });
                &&& (r matches Ok(()) ==> final(messenger).sent() == old(messenger).sent().push(
                    command,
                ))
                &&& (r matches Err(e) ==> e == ActuationError::PublishFailure
                    && final(messenger).sent() == old(messenger).sent())
            },
    {
        if self.angle_diffs.len() <= 1 {
            return Ok(());
        }
        let target: i64 = if self.angle_diffs[1] < self.angle_diffs[0] {
            SHIFT_CALIBRATION_MAGNITUDE
        } else {
            0 - SHIFT_CALIBRATION_MAGNITUDE
        };
        proof {
            assert(target == SHIFT_CALIBRATION_MAGNITUDE * shift_calibration_sign(
                self.angle_diffs@,
            )) by (nonlinear_arith)
                requires
                    shift_calibration_sign(self.angle_diffs@) == 1 || shift_calibration_sign(
                        self.angle_diffs@,
                    ) == -1,
                    shift_calibration_sign(self.angle_diffs@) == 1 ==> target
                        == SHIFT_CALIBRATION_MAGNITUDE,
                    shift_calibration_sign(self.angle_diffs@) == -1 ==> target == -(
                    SHIFT_CALIBRATION_MAGNITUDE as int),
            ;
        }
        let goto_position = Command::MotorGoToPosition {
            port: self.port,
            max_power: SHIFT_CALIBRATION_POWER,
            pwm: SHIFT_CALIBRATION_PWM,
            target_angle: target,
        };
        match messenger.publish_message(&goto_position) {
            Ok(()) => Ok(()),
            Err(_) => Err(ActuationError::PublishFailure),
        }
    }

    /// Record the calibration reference: the current position of this
    /// shifter's port, read by the caller from its feedback table.
    ///
    /// The caller must have let the calibration move come to rest and
    /// advanced its feedback before reading the sample: this call trusts
    /// the sample as the reference and performs no confirmation of its own.
    pub fn finish_calibration(&mut self, position: i64)
        requires
            old(self).wf(),
            -MAX_POSITION <= position <= MAX_POSITION,
        ensures
            final(self).wf(),
            unchanged_except_start(*old(self), *final(self)),
            final(self).start_position == Some(position),
    {
        self.start_position = Some(position);
    }

    /// Select a gear: issue the absolute move to the gear's offset from the
    /// calibrated start position at the shift profile, then record the gear.
    ///
    /// Requesting the gear that is already selected is a pure no-op, so
    /// repeating a shift issues exactly one command.  Requesting a gear
    /// outside the gear table issues nothing and changes nothing, reported
    /// as [`ShiftOutcome::NoSuchGear`].  Shifting before calibration fails
    /// with `NotCalibrated`, a refused delivery with `PublishFailure`; in
    /// both cases nothing changed.
    pub fn shift<M: Messenger>(&mut self, messenger: &mut M, gear: usize) -> (r: Result<
        ShiftOutcome,
        ActuationError,
    >)
        requires
            old(self).wf(),
        ensures
            final(self).wf(),
            old(messenger).reliable() ==> final(messenger).reliable(),
            old(messenger).reliable() && (old(self).start_position is Some || old(self).gear
                == Some(gear) || gear >= old(self).angle_diffs@.len()) ==> r matches Ok(_),
            old(self).gear == Some(gear) ==> r == Ok::<ShiftOutcome, ActuationError>(
                ShiftOutcome::AlreadySelected,
            ) && *final(self) == *old(self) && final(messenger).sent() == old(messenger).sent(),
            old(self).gear != Some(gear) && gear >= old(self).angle_diffs@.len() ==> r == Ok::<
                ShiftOutcome,
                ActuationError,
            >(ShiftOutcome::NoSuchGear) && *final(self) == *old(self) && final(messenger).sent()
                == old(messenger).sent(),
            old(self).gear != Some(gear) && gear < old(self).angle_diffs@.len()
                && old(self).start_position is None ==> r == Err::<ShiftOutcome, ActuationError>(
                ActuationError::NotCalibrated,
            ) && *final(self) == *old(self) && final(messenger).sent() == old(messenger).sent(),
            old(self).gear != Some(gear) && gear < old(self).angle_diffs@.len() ==> (
            old(self).start_position matches Some(s) ==> {
                let command = (Command::MotorGoToPosition {
                    port: old(self).port,
                    max_power: SHIFT_POWER,
                    pwm: SHIFT_PWM,
                    target_angle: (old(self).angle_diffs@[gear as int] + s) as i64,
                });
                &&& (r matches Ok(o) ==> o == ShiftOutcome::Commanded && unchanged_except_gear(
                    *old(self),
                    *final(self),
                ) && final(self).gear == Some(gear)
                    && final(messenger).sent() == old(messenger).sent().push(command))
                &&& (r matches Err(e) ==> e == ActuationError::PublishFailure && *final(self)
                    == *old(self) && final(messenger).sent() == old(messenger).sent())
            }),
    {
        match self.gear {
            Some(g) if g == gear => {
                return Ok(ShiftOutcome::AlreadySelected);
            },
            _ => {},
        }
        if gear >= self.angle_diffs.len() {
            return Ok(ShiftOutcome::NoSuchGear);
        }
        let start: i64 = match self.start_position {
            Some(s) => s,
            None => {
                return Err(ActuationError::NotCalibrated);
            },
        };
        let angle: i64 = self.angle_diffs[gear];
        let goto_position = Command::MotorGoToPosition {
            port: self.port,
            max_power: SHIFT_POWER,
            pwm: SHIFT_PWM,
            target_angle: angle + start,
        };
        match messenger.publish_message(&goto_position) {
            Ok(()) => {
                self.gear = Some(gear);
                Ok(ShiftOutcome::Commanded)
            },
            Err(_) => Err(ActuationError::PublishFailure),
        }
    }
}

} // verus!
