use vstd::prelude::*;
use crate::command::Command;
use crate::command::CALIBRATION_POWER;
use crate::command::CALIBRATION_PWM;
use crate::command::NOTIFICATIONS_ON;
use crate::command::OPERATING_POWER;
use crate::command::OPERATING_PWM;
use crate::command::POSITION_UPDATE_DELTA;
use crate::command::POSITION_UPDATE_MODE;
use crate::error::ActuationError;
use crate::messenger::Messenger;
use crate::port::Port;
use crate::ratio::Ratio;

verus! {

/// Largest total motor-shaft rotation, in encoder units, that an actuator
/// may be configured with.  A machine limit: it keeps the target-angle
/// arithmetic inside `i64`.
pub const MAX_ROTATIONAL_RANGE: i64 = 100_000_000;

/// Largest numerator or denominator of a gear ratio.  A machine limit, as
/// [`MAX_ROTATIONAL_RANGE`] is.
pub const MAX_GEAR_FACTOR: i64 = 10_000;

/// Largest magnitude of an absolute encoder position the crate accepts from
/// feedback.  A machine limit, as [`MAX_ROTATIONAL_RANGE`] is.
pub const MAX_POSITION: i64 = 1_000_000_000_000;

/// Largest magnitude of a calibrated reference: a feedback sample moved by
/// the calibration back-off.
pub const MAX_REFERENCE: i64 = MAX_POSITION + CALIBRATION_BACKOFF;

/// Largest magnitude of a commanded target angle: a reference moved by at
/// most the full motor-side range.
pub const MAX_TARGET: i64 = MAX_REFERENCE + MAX_POSITION;

/// Acceptable absolute error, in encoder units, between the commanded and
/// the observed position for declaring a move complete.
pub const POSITION_TOLERANCE: i64 = 100;

/// How far, in encoder units, the calibrated reference backs off from the
/// end-stop, so that it does not rest against the stall point.
pub const CALIBRATION_BACKOFF: i64 = 100;

/// The absolute target angle of the calibration move: the starting sample
/// plus twice the motor-side range, in the pull-out direction.  The factor
/// of two deliberately overshoots the mechanical limit, so that the motor is
/// guaranteed to stall against the physical end-stop wherever it started;
/// the stall, not the angle, is the calibration landmark.
pub open spec fn calibration_target(
    start: int,
    sign: int,
    range: int,
    gear_num: int,
    gear_den: int,
) -> int {
    start + sign * ((2 * range * gear_den) / gear_num)
}

/// The offset from the stall sample to the calibrated reference: back off
/// [`CALIBRATION_BACKOFF`] units, against the pull-out direction.
pub open spec fn calibration_offset(sign: int) -> int {
    if sign > 0 {
        -CALIBRATION_BACKOFF as int
    } else {
        CALIBRATION_BACKOFF as int
    }
}

/// The absolute target angle for extending to the fraction `num / den` of
/// the stroke: the calibrated reference, moved against the pull-out
/// direction by the still-retracted share `(den - num) / den` of the
/// motor-side range `range * gear_den / gear_num`.  The quotient is floored;
/// at `num == den` the target is exactly the reference.
pub open spec fn extend_target(
    pulled_out: int,
    sign: int,
    range: int,
    gear_num: int,
    gear_den: int,
    num: int,
    den: int,
) -> int {
    pulled_out - sign * ((range * gear_den * (den - num)) / (gear_num * den))
}

/// Whether an observed position is within [`POSITION_TOLERANCE`] of a
/// target, strictly.
pub open spec fn within_tolerance(position: int, target: int) -> bool {
    -POSITION_TOLERANCE < position - target < POSITION_TOLERANCE
}

/// One linear actuator: its fixed mechanical configuration, and the
/// calibration reference and last commanded target it has acquired.
pub struct Actuator {
    /// Total motor-shaft rotation, in encoder units, for the full mechanical
    /// stroke, measured at the motor before gear reduction.
    pub rotational_range: i64,
    /// Numerator of the gear ratio: actuator rotation equals motor rotation
    /// times `gear_ratio_num / gear_ratio_den`.
    pub gear_ratio_num: i64,
    /// Denominator of the gear ratio.
    pub gear_ratio_den: i64,
    /// Physical stroke extent when retracted; informational only.
    pub length_in: i64,
    /// Physical stroke extent when extended; informational only.
    pub length_out: i64,
    /// The motor channel this actuator drives, for its whole lifetime.
    pub port: Port,
    /// Calibration convention: `1` means pulled in is the lower encoder
    /// value, `-1` the opposite.
    pub direction_sign: i8,
    /// Absolute encoder value recorded by calibration; unset until
    /// calibration succeeds, then the fixed reference of every extension.
    pub pulled_out_position: Option<i64>,
    /// Last commanded absolute target angle; meaningful only after at least
    /// one movement command.
    pub target_position: i64,
}

/// The fields of `post` equal those of `pre`, except that
/// `target_position` may differ.
pub open spec fn unchanged_except_target(pre: Actuator, post: Actuator) -> bool {
    &&& post.rotational_range == pre.rotational_range
    &&& post.gear_ratio_num == pre.gear_ratio_num
    &&& post.gear_ratio_den == pre.gear_ratio_den
    &&& post.length_in == pre.length_in
    &&& post.length_out == pre.length_out
    &&& post.port == pre.port
    &&& post.direction_sign == pre.direction_sign
    &&& post.pulled_out_position == pre.pulled_out_position
}

/// The fields of `post` equal those of `pre`, except that
/// `pulled_out_position` may differ.
pub open spec fn unchanged_except_reference(pre: Actuator, post: Actuator) -> bool {
    &&& post.rotational_range == pre.rotational_range
    &&& post.gear_ratio_num == pre.gear_ratio_num
    &&& post.gear_ratio_den == pre.gear_ratio_den
    &&& post.length_in == pre.length_in
    &&& post.length_out == pre.length_out
    &&& post.port == pre.port
    &&& post.direction_sign == pre.direction_sign
    &&& post.target_position == pre.target_position
}

impl Actuator {
    /// Well-formedness: the configuration respects the machine limits, the
    /// direction sign is one of its two conventions, and the acquired
    /// positions lie in their ranges.
    pub open spec fn wf(self) -> bool {
        &&& 0 <= self.rotational_range <= MAX_ROTATIONAL_RANGE
        &&& 1 <= self.gear_ratio_num <= MAX_GEAR_FACTOR
        &&& 1 <= self.gear_ratio_den <= MAX_GEAR_FACTOR
        &&& self.direction_sign == 1i8 || self.direction_sign == -1i8
        &&& (self.pulled_out_position matches Some(p) ==> -MAX_REFERENCE <= p <= MAX_REFERENCE)
        &&& -MAX_TARGET <= self.target_position <= MAX_TARGET
    }

    /// The two setup commands of calibration: start periodic absolute
    /// position streaming for this port, then request one immediate reading.
    ///
    /// Before this call the caller must clear any latched motor-fault flags
    /// for the port on its feedback side.  After it, the caller polls its
    /// feedback until a position sample for the port arrives, within a
    /// deadline of its choosing, and hands the sample to
    /// [`Actuator::command_calibration_move`].
    pub fn init_calibration<M: Messenger>(&mut self, messenger: &mut M) -> (r: Result<
        (),
        ActuationError,
    >)
        requires
            old(self).wf(),
        ensures
            *final(self) == *old(self),
            old(messenger).reliable() ==> (r matches Ok(()) && final(messenger).reliable()),
            r matches Ok(()) ==> final(messenger).sent() == old(messenger).sent().push(
                (Command::EnableModeUpdates {
                    mode: POSITION_UPDATE_MODE,
                    port: old(self).port,
                    notifications_enabled: NOTIFICATIONS_ON,
                    delta: POSITION_UPDATE_DELTA,
                }),
            ).push((Command::PortInformationRequest { port_id: old(self).port.id_spec() })),
            r matches Err(e) ==> e == ActuationError::PublishFailure && (final(messenger).sent()
                == old(messenger).sent() || final(messenger).sent() == old(messenger).sent().push(
                (Command::EnableModeUpdates {
                    mode: POSITION_UPDATE_MODE,
                    port: old(self).port,
                    notifications_enabled: NOTIFICATIONS_ON,
                    delta: POSITION_UPDATE_DELTA,
                }),
            )),
    {
        let enable_position_updates = Command::EnableModeUpdates {
            mode: POSITION_UPDATE_MODE,
            port: self.port,
            notifications_enabled: NOTIFICATIONS_ON,
            delta: POSITION_UPDATE_DELTA,
        };
        match messenger.publish_message(&enable_position_updates) {
            Ok(()) => {},
            Err(_) => {
                return Err(ActuationError::PublishFailure);
            },
        }
        let read_pos = Command::PortInformationRequest { port_id: self.port.id() };
        match messenger.publish_message(&read_pos) {
            Ok(()) => Ok(()),
            Err(_) => Err(ActuationError::PublishFailure),
        }
    }

    /// The calibration move: drive the motor from the starting sample to
    /// [`calibration_target`] at the low-power calibration profile, so that
    /// it stalls against the physical end-stop.
    ///
    /// `start_position` is the first position sample the caller's bounded
    /// wait produced; `None` means the wait reached its deadline without a
    /// sample, which fails with `Timeout` and issues nothing.
    pub fn command_calibration_move<M: Messenger>(
        &mut self,
        messenger: &mut M,
        start_position: Option<i64>,
    ) -> (r: Result<(), ActuationError>)
        requires
            old(self).wf(),
            start_position matches Some(s) ==> -MAX_POSITION <= s <= MAX_POSITION,
        ensures
            *final(self) == *old(self),
            old(messenger).reliable() ==> final(messenger).reliable(),
            start_position is Some && old(messenger).reliable() ==> r matches Ok(()),
            start_position is None ==> r == Err::<(), ActuationError>(ActuationError::Timeout)
                && final(messenger).sent() == old(messenger).sent(),
            start_position matches Some(s) ==> {
                let t = calibration_target(
                    s as int,
                    old(self).direction_sign as int,
                    old(self).rotational_range as int,
                    old(self).gear_ratio_num as int,
                    old(self).gear_ratio_den as int,
                );
                &&& (r matches Ok(()) ==> final(messenger).sent() == old(messenger).sent().push(
                    (Command::MotorGoToPosition {
                        port: old(self).port,
                        max_power: CALIBRATION_POWER,
                        pwm: CALIBRATION_PWM,
                        target_angle: t as i64,
                    }),
                ))
                &&& (r matches Err(e) ==> e == ActuationError::PublishFailure
                    && final(messenger).sent() == old(messenger).sent())
            },
    {
        let start: i64 = match start_position {
            Some(s) => s,
            None => {
                return Err(ActuationError::Timeout);
            },
        };
        proof {
            assert(0 <= 2 * self.rotational_range * self.gear_ratio_den <= 2_000_000_000_000)
                by (nonlinear_arith)
                requires
                    0 <= self.rotational_range <= 100_000_000,
                    1 <= self.gear_ratio_den <= 10_000,
            ;
        }
        let overshoot: i64 = 2 * self.rotational_range * self.gear_ratio_den / self.gear_ratio_num;
        let angle: i64 = if self.direction_sign > 0 {
            overshoot
        } else {
            0 - overshoot
        };
        proof {
            let t = calibration_target(
                start as int,
                self.direction_sign as int,
                self.rotational_range as int,
                self.gear_ratio_num as int,
                self.gear_ratio_den as int,
            );
            assert(0 <= (2 * self.rotational_range as int * self.gear_ratio_den as int) / (
            self.gear_ratio_num as int) <= 2_000_000_000_000) by (nonlinear_arith)
                requires
                    0 <= 2 * self.rotational_range as int * self.gear_ratio_den as int
                        <= 2_000_000_000_000,
                    1 <= self.gear_ratio_num as int,
            ;
            assert(overshoot == (2 * self.rotational_range as int * self.gear_ratio_den as int) / (
            self.gear_ratio_num as int));
            assert(t == start + angle) by (nonlinear_arith)
                requires
                    t == start + (self.direction_sign as int) * (overshoot as int),
                    self.direction_sign == 1i8 || self.direction_sign == -1i8,
                    self.direction_sign > 0 ==> angle == overshoot,
                    self.direction_sign <= 0 ==> angle == -(overshoot as int),
            ;
        }
        let goto_position = Command::MotorGoToPosition {
            port: self.port,
            max_power: CALIBRATION_POWER,
            pwm: CALIBRATION_PWM,
            target_angle: start + angle,
        };
        match messenger.publish_message(&goto_position) {
            Ok(()) => Ok(()),
            Err(_) => Err(ActuationError::PublishFailure),
        }
    }

    /// Poll whether calibration has completed, and record the reference when
    /// it first has.
    ///
    /// `cmd_discarded` is the feedback side's confirmation that the
    /// outstanding move command for this port has come to rest, by stall or
    /// by supersession; `position` is its latest sample for the port, if it
    /// holds one.  The call returns `true`, and sets the calibrated
    /// reference to the sample moved by [`calibration_offset`], exactly on
    /// the first call on which the command is confirmed and a sample exists;
    /// every earlier call, and every call after success, returns `false`
    /// and changes nothing.
    pub fn finish_calibration(&mut self, cmd_discarded: bool, position: Option<i64>) -> (r: bool)
        requires
            old(self).wf(),
            position matches Some(p) ==> -MAX_POSITION <= p <= MAX_POSITION,
        ensures
            final(self).wf(),
            r == (old(self).pulled_out_position is None && cmd_discarded && position is Some),
            !r ==> *final(self) == *old(self),
            r ==> unchanged_except_reference(*old(self), *final(self)) && (position matches Some(p)
                && final(self).pulled_out_position == Some(
                (p + calibration_offset(old(self).direction_sign as int)) as i64,
            )),
    {
        if self.pulled_out_position.is_some() {
            return false;
        }
        if !cmd_discarded {
            return false;
        }
        match position {
            Some(p) => {
                let offset: i64 = if self.direction_sign > 0 {
                    -CALIBRATION_BACKOFF
                } else {
                    CALIBRATION_BACKOFF
                };
                self.pulled_out_position = Some(p + offset);
                true
            },
            None => false,
        }
    }

    /// Command an extension to the fraction `ratio` of the stroke: set the
    /// target to [`extend_target`] and issue the absolute move at the
    /// operating profile.
    ///
    /// A ratio outside the unit interval fails with `InvalidArgument`, an
    /// actuator without a calibration reference with `NotCalibrated`, and a
    /// refused delivery with `PublishFailure`.  No failure delivers a
    /// command, and only `PublishFailure` leaves the target updated: the
    /// computation had already happened when delivery was attempted.
    pub fn start_extend_actuator<M: Messenger>(&mut self, messenger: &mut M, ratio: Ratio) -> (r:
        Result<(), ActuationError>)
        requires
            old(self).wf(),
            ratio.wf(),
        ensures
            final(self).wf(),
            old(messenger).reliable() ==> final(messenger).reliable(),
            ratio.in_unit() && old(self).pulled_out_position is Some && old(messenger).reliable()
                ==> r matches Ok(()),
            !ratio.in_unit() ==> r == Err::<(), ActuationError>(ActuationError::InvalidArgument)
                && *final(self) == *old(self) && final(messenger).sent() == old(messenger).sent(),
            ratio.in_unit() && old(self).pulled_out_position is None ==> r == Err::<
                (),
                ActuationError,
            >(ActuationError::NotCalibrated) && *final(self) == *old(self)
                && final(messenger).sent() == old(messenger).sent(),
            ratio.in_unit() ==> (old(self).pulled_out_position matches Some(p) ==> ({
                let t = extend_target(
                    p as int,
                    old(self).direction_sign as int,
                    old(self).rotational_range as int,
                    old(self).gear_ratio_num as int,
                    old(self).gear_ratio_den as int,
                    ratio.num as int,
                    ratio.den as int,
                );
                &&& unchanged_except_target(*old(self), *final(self))
                &&& final(self).target_position == t
                &&& (r matches Ok(()) ==> final(messenger).sent() == old(messenger).sent().push(
                    (Command::MotorGoToPosition {
                        port: old(self).port,
                        max_power: OPERATING_POWER,
                        pwm: OPERATING_PWM,
                        target_angle: t as i64,
                    }),
                ))
                &&& (r matches Err(e) ==> e == ActuationError::PublishFailure
                    && final(messenger).sent() == old(messenger).sent())
            })),
    {
        if ratio.num < 0 || ratio.num > ratio.den {
            return Err(ActuationError::InvalidArgument);
        }
        let pulled_out: i64 = match self.pulled_out_position {
            Some(p) => p,
            None => {
                return Err(ActuationError::NotCalibrated);
            },
        };
        proof {
            assert(0 <= self.rotational_range * self.gear_ratio_den <= 1_000_000_000_000)
                by (nonlinear_arith)
                requires
                    0 <= self.rotational_range <= 100_000_000,
                    1 <= self.gear_ratio_den <= 10_000,
            ;
        }
        let rotational_motor_range: i64 = self.rotational_range * self.gear_ratio_den;
        proof {
            assert(0 <= rotational_motor_range * (ratio.den - ratio.num)
                <= 1_000_000_000_000_000_000) by (nonlinear_arith)
                requires
                    0 <= rotational_motor_range <= 1_000_000_000_000,
                    0 <= ratio.den - ratio.num <= 1_000_000,
            ;
            assert(1 <= self.gear_ratio_num * ratio.den <= 10_000_000_000) by (nonlinear_arith)
                requires
                    1 <= self.gear_ratio_num <= 10_000,
                    1 <= ratio.den <= 1_000_000,
            ;
        }
        let numer: i64 = rotational_motor_range * (ratio.den - ratio.num);
        let denom: i64 = self.gear_ratio_num * ratio.den;
        let rotational_ratio: i64 = numer / denom;
        proof {
            assert(numer <= rotational_motor_range * denom) by (nonlinear_arith)
                requires
                    numer == rotational_motor_range * (ratio.den - ratio.num),
                    denom == self.gear_ratio_num * ratio.den,
                    0 <= rotational_motor_range,
                    1 <= self.gear_ratio_num,
                    0 <= ratio.num <= ratio.den,
            ;
            assert(rotational_ratio <= rotational_motor_range) by (nonlinear_arith)
                requires
                    rotational_ratio == numer as int / denom as int,
                    numer <= rotational_motor_range * denom,
                    0 <= numer,
                    1 <= denom,
            ;
        }
        let delta: i64 = if self.direction_sign > 0 {
            rotational_ratio
        } else {
            0 - rotational_ratio
        };
        self.target_position = pulled_out - delta;
        let goto_position = Command::MotorGoToPosition {
            port: self.port,
            max_power: OPERATING_POWER,
            pwm: OPERATING_PWM,
            target_angle: self.target_position,
        };
        match messenger.publish_message(&goto_position) {
            Ok(()) => Ok(()),
            Err(_) => Err(ActuationError::PublishFailure),
        }
    }

    /// Whether the last commanded extension has physically completed: the
    /// snapshot's position for this port is strictly within
    /// [`POSITION_TOLERANCE`] of the commanded target.
    ///
    /// `motor_positions` is the feedback side's table of the latest absolute
    /// position per channel number; it must hold an entry for this port.
    pub fn check_extend_actuator_finished(
        &self,
        motor_positions: &std::collections::HashMap<u8, i64>,
    ) -> (r: bool)
        requires
            self.wf(),
            motor_positions@.contains_key(self.port.id_spec()),
            -MAX_POSITION <= motor_positions@[self.port.id_spec()] <= MAX_POSITION,
        ensures
            r == within_tolerance(
                motor_positions@[self.port.id_spec()] as int,
                self.target_position as int,
            ),
    {
        broadcast use vstd::std_specs::hash::group_hash_axioms;

        let key: u8 = self.port.id();
        let value: i64 = match motor_positions.get(&key) {
            Some(v) => *v,
            None => {
                proof {
                    assert(false);
                }
                0
            },
        };
        let diff: i64 = value - self.target_position;
        -POSITION_TOLERANCE < diff && diff < POSITION_TOLERANCE
    }
}

/// Floored division is monotone across denominators: a fraction at least as
/// large as another stays at least as large after flooring.
proof fn lemma_div_cross_monotone(a: int, d: int, b: int, e: int)
    requires
        0 <= a,
        0 <= b,
        1 <= d,
        1 <= e,
        b * d <= a * e,
    ensures
        b / e <= a / d,
{
    vstd::arithmetic::div_mod::lemma_fundamental_div_mod(a, d);
    vstd::arithmetic::div_mod::lemma_fundamental_div_mod(b, e);
    vstd::arithmetic::div_mod::lemma_mod_division_less_than_divisor(a, d);
    vstd::arithmetic::div_mod::lemma_mod_division_less_than_divisor(b, e);
    assert(b / e <= a / d) by (nonlinear_arith)
        requires
            a == d * (a / d) + (a % d),
            b == e * (b / e) + (b % e),
            0 <= a % d < d,
            0 <= b % e < e,
            b * d <= a * e,
            1 <= d,
            1 <= e,
            0 <= a,
            0 <= b,
    ;
}

/// Law: at full extension the target is exactly the calibrated reference.
/// For every denominator, extending to the ratio `den / den` commands the
/// recorded pull-out position itself.
pub proof fn lemma_extend_target_at_full(
    pulled_out: int,
    sign: int,
    range: int,
    gear_num: int,
    gear_den: int,
    den: int,
)
    requires
        1 <= gear_num,
        1 <= den,
    ensures
        extend_target(pulled_out, sign, range, gear_num, gear_den, den, den) == pulled_out,
{
    assert(range * gear_den * (den - den) == 0) by (nonlinear_arith);
    assert(1 <= gear_num * den) by (nonlinear_arith)
        requires
            1 <= gear_num,
            1 <= den,
    ;
    assert((range * gear_den * (den - den)) / (gear_num * den) == 0) by (nonlinear_arith)
        requires
            range * gear_den * (den - den) == 0,
            1 <= gear_num * den,
    ;
    assert(sign * ((range * gear_den * (den - den)) / (gear_num * den)) == 0) by (nonlinear_arith)
        requires
            (range * gear_den * (den - den)) / (gear_num * den) == 0,
    ;
}

/// Law: the extension target is monotone in the ratio.  For two ratios
/// `n1 / d1 <= n2 / d2` in the unit interval, a pull-out direction of `1`
/// gives a target at least as large for the larger ratio, and a direction
/// of `-1` gives one at most as large; the step from one target to the
/// other is the floored share of the motor-side range
/// `range * gear_den / gear_num` still to travel.
pub proof fn lemma_extend_target_monotonic(
    pulled_out: int,
    sign: int,
    range: int,
    gear_num: int,
    gear_den: int,
    n1: int,
    d1: int,
    n2: int,
    d2: int,
)
    requires
        0 <= range,
        1 <= gear_num,
        1 <= gear_den,
        1 <= d1,
        1 <= d2,
        0 <= n1 <= d1,
        0 <= n2 <= d2,
        n1 * d2 <= n2 * d1,
        sign == 1 || sign == -1,
    ensures
        sign == 1 ==> extend_target(pulled_out, sign, range, gear_num, gear_den, n1, d1)
            <= extend_target(pulled_out, sign, range, gear_num, gear_den, n2, d2),
        sign == -1 ==> extend_target(pulled_out, sign, range, gear_num, gear_den, n1, d1)
            >= extend_target(pulled_out, sign, range, gear_num, gear_den, n2, d2),
{
    let k = range * gear_den;
    let a = k * (d1 - n1);
    let b = k * (d2 - n2);
    let da = gear_num * d1;
    let db = gear_num * d2;
    assert(0 <= a && 0 <= b && 1 <= da && 1 <= db && b * da <= a * db) by (nonlinear_arith)
        requires
            k == range * gear_den,
            a == k * (d1 - n1),
            b == k * (d2 - n2),
            da == gear_num * d1,
            db == gear_num * d2,
            0 <= range,
            1 <= gear_num,
            1 <= gear_den,
            1 <= d1,
            1 <= d2,
            0 <= n1 <= d1,
            0 <= n2 <= d2,
            n1 * d2 <= n2 * d1,
    ;
    lemma_div_cross_monotone(a, da, b, db);
    let q1 = a / da;
    let q2 = b / db;
    assert((sign == 1 ==> pulled_out - sign * q1 <= pulled_out - sign * q2) && (sign == -1
        ==> pulled_out - sign * q1 >= pulled_out - sign * q2)) by (nonlinear_arith)
        requires
            q2 <= q1,
            sign == 1 || sign == -1,
    ;
}

/// Law: where the motor-side range divides evenly, the target is linear in
/// the ratio.  With a common denominator `den` and
/// `(range * gear_den) % (gear_num * den) == 0`, stepping the numerator
/// from `n1` to `n2` moves the target by exactly
/// `sign * (range * gear_den / (gear_num * den))` units per numerator step.
pub proof fn lemma_extend_target_slope(
    pulled_out: int,
    sign: int,
    range: int,
    gear_num: int,
    gear_den: int,
    den: int,
    n1: int,
    n2: int,
)
    requires
        0 <= range,
        1 <= gear_num,
        1 <= gear_den,
        1 <= den,
        0 <= n1 <= den,
        0 <= n2 <= den,
        (range * gear_den) % (gear_num * den) == 0,
    ensures
        extend_target(pulled_out, sign, range, gear_num, gear_den, n2, den) - extend_target(
            pulled_out,
            sign,
            range,
            gear_num,
            gear_den,
            n1,
            den,
        ) == sign * ((range * gear_den) / (gear_num * den)) * (n2 - n1),
{
    let k = range * gear_den;
    let g = gear_num * den;
    assert(1 <= g) by (nonlinear_arith)
        requires
            g == gear_num * den,
            1 <= gear_num,
            1 <= den,
    ;
    let c = k / g;
    vstd::arithmetic::div_mod::lemma_fundamental_div_mod(k, g);
    assert(k == g * c);
    assert(k * (den - n1) == g * (c * (den - n1))) by (nonlinear_arith)
        requires
            k == g * c,
    ;
    assert(k * (den - n2) == g * (c * (den - n2))) by (nonlinear_arith)
        requires
            k == g * c,
    ;
    vstd::arithmetic::div_mod::lemma_div_multiples_vanish(c * (den - n1), g);
    vstd::arithmetic::div_mod::lemma_div_multiples_vanish(c * (den - n2), g);
    assert((k * (den - n1)) / g == c * (den - n1));
    assert((k * (den - n2)) / g == c * (den - n2));
    assert(pulled_out - sign * (c * (den - n2)) - (pulled_out - sign * (c * (den - n1))) == sign * c
        * (n2 - n1)) by (nonlinear_arith);
}

} // verus!
