//! The tracking engine: on every tick it compares where the mount points
//! with where the target is, and commands each axis to the target's rate
//! plus a share of the pointing error. An operator may slew by hand while
//! tracking; the correction can be saved and is then applied to the aim.
//!
//! The engine owns neither the mount nor the target: each operation is
//! handed what it needs, and returns what it did for the caller to log and
//! to pass on to its observers.

use crate::data::{
    angle_diff, angle_diff_spec, clamp_i64, divide_toward_zero, saturating_sum, toward_zero, Angle,
    AngularSpeed, MountSpeed, Slewing, Target, FULL_DEFLECTION,
};
use crate::mount::{Axis, Mount, MountError, MountWrapper, TravelAlarm};
use vstd::prelude::*;

verus! {

/// Share of the pointing error that is added to the commanded speed, as a
/// divisor: an error of one degree adds a quarter of a degree per second.
pub const MATCH_POS_SPD_DIVISOR: i64 = 4;

/// Greatest speed of a manual adjustment: half a degree per second.
pub const MAX_ADJUSTMENT_SPD: i64 = 180_000;

/// Least speed of a manual adjustment: a fortieth of a degree per second.
pub const MIN_ADJUSTMENT_SPD: i64 = 9_000;

/// Time between two ticks of the engine, in milliseconds.
pub const TIMER_INTERVAL_MS: u64 = 500;

/// Tells an observer whether tracking is active.
#[derive(Clone, Copy, Debug, PartialEq, Eq, Structural)]
pub struct Running(pub bool);

/// What the engine is doing.
#[derive(Clone, Copy, Debug, PartialEq, Eq, Structural)]
pub enum TrackingState {
    /// Not tracking; no ticks.
    Idle,
    /// Following the target.
    Tracking,
    /// Tracking is active, but the operator slews by hand and ticks do
    /// nothing.
    Adjusting,
}

/// A saved correction of the aim.
#[derive(Clone, Copy, Debug, PartialEq, Eq, Structural)]
pub struct Adjustment {
    /// Rotation of the correction's direction against the direction in
    /// which the target moves across the sky.
    pub rel_dir: Angle,
    /// Size of the correction on the sky.
    pub angle: Angle,
}

/// Why tracking was stopped.
#[derive(Clone, Copy, Debug, PartialEq, Eq, Structural)]
pub enum TrackingError {
    /// No mount is connected.
    MountNotConnected,
    /// There is no target.
    NoTarget,
}

impl TrackingError {
    /// The error in words.
    pub fn describe(&self) -> (r: &'static str)
        ensures
            r@ == match self {
                TrackingError::MountNotConnected => "mount not connected"@,
                TrackingError::NoTarget => "no target"@,
            },
    {
        match self {
            TrackingError::MountNotConnected => "mount not connected",
            TrackingError::NoTarget => "no target",
        }
    }
}

/// A factor by which a speed is changed, as a fraction.
#[derive(Clone, Copy, Debug, PartialEq, Eq, Structural)]
pub struct Factor {
    pub num: u32,
    pub den: u32,
}

/// The engine as a mathematical value.
pub struct TrackingView {
    pub max_spd: AngularSpeed,
    pub state: TrackingState,
    pub adjustment: Option<Adjustment>,
    pub adjustment_slew_speed: AngularSpeed,
}

impl TrackingView {
    /// The engine brought to rest: idle, with no correction.
    pub open spec fn stopped(self) -> TrackingView {
        TrackingView { state: TrackingState::Idle, adjustment: None, ..self }
    }

    /// Whether ticks are due.
    pub open spec fn is_active(self) -> bool {
        self.state != TrackingState::Idle
    }
}

/// `speed` held to `[-max, max]`.
pub open spec fn clamp_speed(speed: int, max: int) -> int {
    if speed < -max {
        -max
    } else if speed > max {
        max
    } else {
        speed
    }
}

/// The speed commanded for an axis that is `pos_delta` short of its aim
/// while the aim moves at `target_spd`: the target's rate plus a quarter of
/// the pointing error per second, held to `[-max_spd, max_spd]`.
pub open spec fn axis_speed_spec(pos_delta: int, target_spd: int, max_spd: int) -> int {
    clamp_speed(target_spd + toward_zero(pos_delta, MATCH_POS_SPD_DIVISOR as int), max_spd)
}

/// The speed commanded for an axis during a manual adjustment: the
/// target's rate plus the share `rel` of the adjustment speed.
pub open spec fn adjust_speed_spec(target_spd: int, rel: int, adjustment_spd: int) -> int {
    clamp_i64(target_spd + toward_zero(rel * adjustment_spd, FULL_DEFLECTION as int))
}

/// The adjustment speed changed by `factor`, held to its least and
/// greatest value.
pub open spec fn scaled_adjustment_spd(spd: int, factor: Factor) -> int {
    let scaled = (spd * factor.num) / (factor.den as int);
    if scaled < MIN_ADJUSTMENT_SPD {
        MIN_ADJUSTMENT_SPD as int
    } else if scaled > MAX_ADJUSTMENT_SPD {
        MAX_ADJUSTMENT_SPD as int
    } else {
        scaled
    }
}

/// Where to aim: at the target, or, where a correction of some size is
/// saved and the caller has worked out the corrected point, at that point.
pub open spec fn aim_spec(
    target: Target,
    adjustment: Option<Adjustment>,
    adjusted: Option<(Angle, Angle)>,
) -> (Angle, Angle) {
    match (adjustment, adjusted) {
        (Some(adj), Some(point)) if adj.angle@ != 0 => point,
        _ => (target.azimuth, target.altitude),
    }
}

/// The speed to command for an axis that is `pos_delta` short of its aim.
pub fn axis_speed(pos_delta: Angle, target_spd: AngularSpeed, max_spd: AngularSpeed) -> (r:
    AngularSpeed)
    requires
        max_spd@ >= 0,
    ensures
        r@ == axis_speed_spec(pos_delta@, target_spd@, max_spd@),
{
    let share: i64 = divide_toward_zero(pos_delta.centiarcsec as i128, MATCH_POS_SPD_DIVISOR as i128);
    let wanted: i128 = target_spd.centiarcsec_per_s as i128 + share as i128;
    let max: i128 = max_spd.centiarcsec_per_s as i128;
    let held: i128 = if wanted < -max {
        -max
    } else if wanted > max {
        max
    } else {
        wanted
    };
    AngularSpeed { centiarcsec_per_s: held as i64 }
}

/// Where to aim.
pub fn aim_point(target: &Target, adjustment: Option<Adjustment>, adjusted: Option<(Angle, Angle)>) -> (r: (
    Angle,
    Angle,
))
    ensures
        r == aim_spec(*target, adjustment, adjusted),
{
    match (adjustment, adjusted) {
        (Some(adj), Some(point)) => if adj.angle.centiarcsec != 0 {
            point
        } else {
            (target.azimuth, target.altitude)
        },
        _ => (target.azimuth, target.altitude),
    }
}

/// A correction of no size leaves the aim on the target, whatever its
/// direction and whatever point the caller worked out.
pub proof fn lemma_empty_adjustment_keeps_aim(
    target: Target,
    rel_dir: Angle,
    adjusted: Option<(Angle, Angle)>,
)
    ensures
        aim_spec(target, Some(Adjustment { rel_dir, angle: Angle { centiarcsec: 0 } }), adjusted)
            == (target.azimuth, target.altitude),
{
}

/// What a tick did.
#[derive(Clone, Copy, Debug)]
pub enum TickOutcome {
    /// The engine is idle: nothing was done.
    NotActive,
    /// The operator is adjusting: nothing was done.
    Adjusting,
    /// The speed of the mount is not known yet: nothing was done.
    AwaitingSpeedEstimate,
    /// The position could not be read: nothing else was done.
    PositionUnavailable(MountError),
    /// Reading the position took an axis across its travel limit: tracking
    /// and the mount were stopped.
    TravelExceeded { alarm: TravelAlarm, mount_stop: Result<(), MountError> },
    /// Tracking was stopped for want of a mount or a target.
    Stopped(TrackingError),
    /// Both axes were commanded, with the speeds and results given.
    Commanded {
        position: (Angle, Angle),
        axis1: AngularSpeed,
        axis1_result: Result<(), MountError>,
        axis2: AngularSpeed,
        axis2_result: Result<(), MountError>,
    },
}

impl TickOutcome {
    /// Whether the tick ended tracking, of which observers are to be told.
    pub open spec fn stops(self) -> bool {
        self is TravelExceeded || self is Stopped
    }

    /// What observers are to be told after this tick, if anything.
    pub fn notification(&self) -> (r: Option<Running>)
        ensures
            r == if self.stops() {
                Some(Running(false))
            } else {
                None::<Running>
            },
    {
        match self {
            TickOutcome::TravelExceeded { .. } => Some(Running(false)),
            TickOutcome::Stopped(_) => Some(Running(false)),
            _ => None,
        }
    }
}

/// The tracking engine.
#[derive(Debug)]
pub struct Tracking {
    max_spd: AngularSpeed,
    state: TrackingState,
    adjustment: Option<Adjustment>,
    adjustment_slew_speed: AngularSpeed,
}

impl View for Tracking {
    type V = TrackingView;

    closed spec fn view(&self) -> TrackingView {
        TrackingView {
            max_spd: self.max_spd,
            state: self.state,
            adjustment: self.adjustment,
            adjustment_slew_speed: self.adjustment_slew_speed,
        }
    }
}

impl Tracking {
    /// The speed limit is not negative, the adjustment speed lies between
    /// its least and greatest value, and an idle engine holds no correction.
    #[verifier::type_invariant]
    pub closed spec fn wf(&self) -> bool {
        &&& self.max_spd@ >= 0
        &&& MIN_ADJUSTMENT_SPD <= self.adjustment_slew_speed@ <= MAX_ADJUSTMENT_SPD
        &&& self.state == TrackingState::Idle ==> self.adjustment is None
    }

    /// What holds of every engine.
    pub proof fn lemma_wf(&self)
        requires
            self.wf(),
        ensures
            self@.max_spd@ >= 0,
            MIN_ADJUSTMENT_SPD <= self@.adjustment_slew_speed@ <= MAX_ADJUSTMENT_SPD,
            self@.state == TrackingState::Idle ==> self@.adjustment is None,
    {
    }

    /// An idle engine that commands no speed beyond `max_spd` in either
    /// direction. Manual adjustments start at their greatest speed.
    pub fn new(max_spd: AngularSpeed) -> (r: Tracking)
        requires
            max_spd@ >= 0,
        ensures
            r.wf(),
            r@ == (TrackingView {
                max_spd,
                state: TrackingState::Idle,
                adjustment: None,
                adjustment_slew_speed: AngularSpeed { centiarcsec_per_s: MAX_ADJUSTMENT_SPD },
            }),
    {
        Tracking {
            max_spd,
            state: TrackingState::Idle,
            adjustment: None,
            adjustment_slew_speed: AngularSpeed { centiarcsec_per_s: MAX_ADJUSTMENT_SPD },
        }
    }

    /// Whether ticks are due.
    pub fn is_active(&self) -> (r: bool)
        ensures
            r == self@.is_active(),
    {
        !matches!(self.state, TrackingState::Idle)
    }

    /// What the engine is doing.
    pub fn state(&self) -> (r: TrackingState)
        ensures
            r == self@.state,
    {
        self.state
    }

    /// The saved correction of the aim, if there is one.
    pub fn adjustment(&self) -> (r: Option<Adjustment>)
        ensures
            r == self@.adjustment,
    {
        self.adjustment
    }

    /// The speed of manual adjustments.
    pub fn adjustment_slew_speed(&self) -> (r: AngularSpeed)
        ensures
            r == self@.adjustment_slew_speed,
            MIN_ADJUSTMENT_SPD <= r@ <= MAX_ADJUSTMENT_SPD,
    {
        proof {
            use_type_invariant(self);
        }
        self.adjustment_slew_speed
    }
}

/// What stopping on a travel alarm did.
#[derive(Clone, Copy, Debug)]
pub struct TravelStop {
    /// What observers are to be told.
    pub notify: Running,
    /// Whether the mount took the command to stop.
    pub mount_stop: Result<(), MountError>,
}

/// What a manual slew did.
#[derive(Clone, Copy, Debug)]
pub enum AdjustOutcome {
    /// The engine is idle: nothing was done.
    NotActive,
    /// Tracking was stopped for want of a mount or a target.
    Stopped(TrackingError),
    /// Both axes were commanded with the speeds given. `began` says that
    /// this slew has started a manual adjustment.
    Slewed { began: bool, axis1: AngularSpeed, axis2: AngularSpeed, result: Result<(), MountError> },
}

/// What the preparation for saving an adjustment found.
#[derive(Clone, Copy, Debug)]
pub enum SavePreparation {
    /// No manual adjustment is under way: nothing was done.
    NotAdjusting,
    /// There is no target: nothing was done.
    NoTarget,
    /// No mount is connected: tracking was stopped.
    Stopped(TrackingError),
    /// The position could not be read: nothing else was done.
    PositionUnavailable(MountError),
    /// Reading the position took an axis across its travel limit: tracking
    /// and the mount were stopped.
    TravelExceeded { alarm: TravelAlarm, mount_stop: Result<(), MountError> },
    /// The mount points at the calibrated position given; the adjustment
    /// is to be measured from it.
    Ready((Angle, Angle)),
}

impl Tracking {
    /// Starts tracking where a mount is connected: an idle engine begins to
    /// track, and observers are to be told that tracking is active. Without
    /// a mount nothing happens.
    pub fn start<M: Mount>(&mut self, mount: &Option<MountWrapper<M>>) -> (r: Option<Running>)
        ensures
            mount is None ==> r is None && final(self)@ == old(self)@,
            mount is Some ==> r == Some(Running(true)) && final(self)@ == (TrackingView {
                state: if old(self)@.state == TrackingState::Idle {
                    TrackingState::Tracking
                } else {
                    old(self)@.state
                },
                ..old(self)@
            }),
    {
        proof {
            use_type_invariant(&*self);
        }
        if mount.is_none() {
            return None;
        }
        if let TrackingState::Idle = self.state {
            self.state = TrackingState::Tracking;
        }
        Some(Running(true))
    }

    /// Stops tracking at once: the engine is idle and holds no correction.
    /// Observers are to be told that tracking is not active.
    pub fn stop(&mut self) -> (r: Running)
        ensures
            r == Running(false),
            final(self)@ == old(self)@.stopped(),
    {
        proof {
            use_type_invariant(&*self);
        }
        self.adjustment = None;
        self.state = TrackingState::Idle;
        Running(false)
    }

    /// Changes the speed of manual adjustments by `factor`, within its least
    /// and greatest value.
    pub fn change_adjustment_slew_speed(&mut self, factor: Factor)
        requires
            factor.den > 0,
        ensures
            final(self)@ == (TrackingView {
                adjustment_slew_speed: AngularSpeed {
                    centiarcsec_per_s: scaled_adjustment_spd(
                        old(self)@.adjustment_slew_speed@,
                        factor,
                    ) as i64,
                },
                ..old(self)@
            }),
    {
        proof {
            use_type_invariant(&*self);
        }
        let spd: i128 = self.adjustment_slew_speed.centiarcsec_per_s as i128;
        let num: i128 = factor.num as i128;
        assert(0 <= spd * num <= 180_000 * 0x1_0000_0000) by (nonlinear_arith)
            requires
                0 <= spd <= 180_000,
                0 <= num < 0x1_0000_0000,
        ;
        let product: i128 = spd * num;
        let scaled: i128 = product / factor.den as i128;
        let held: i128 = if scaled < MIN_ADJUSTMENT_SPD as i128 {
            MIN_ADJUSTMENT_SPD as i128
        } else if scaled > MAX_ADJUSTMENT_SPD as i128 {
            MAX_ADJUSTMENT_SPD as i128
        } else {
            scaled
        };
        self.adjustment_slew_speed = AngularSpeed { centiarcsec_per_s: held as i64 };
    }

    /// Takes notice of the axes found beyond their travel limit: where
    /// there is one, tracking is stopped and the mount is told to stop.
    pub fn on_max_travel_exceeded<M: Mount>(
        &mut self,
        mount: &mut MountWrapper<M>,
        axis1: bool,
        axis2: bool,
    ) -> (r: Option<TravelStop>)
        ensures
            final(mount).calibration() == old(mount).calibration(),
            !(axis1 || axis2) ==> r is None && final(self)@ == old(self)@,
            axis1 || axis2 ==> final(self)@ == old(self)@.stopped() && r is Some && r->0.notify
                == Running(false),
    {
        if axis1 || axis2 {
            let notify = self.stop();
            let mount_stop = mount.stop();
            Some(TravelStop { notify, mount_stop })
        } else {
            None
        }
    }

    /// Commands one axis to follow its aim, from which it is `pos_delta`
    /// short. A command that fails does not end tracking.
    fn update_axis<M: Mount>(
        &self,
        mount: &mut MountWrapper<M>,
        axis: Axis,
        pos_delta: Angle,
        target_spd: AngularSpeed,
    ) -> (r: (AngularSpeed, Result<(), MountError>))
        ensures
            final(mount).calibration() == old(mount).calibration(),
            r.0@ == axis_speed_spec(pos_delta@, target_spd@, self@.max_spd@),
    {
        proof {
            use_type_invariant(self);
        }
        let spd = axis_speed(pos_delta, target_spd, self.max_spd);
        let result = mount.slew_axis(axis, spd);
        (spd, result)
    }

    /// One tick of the engine.
    ///
    /// An idle engine does nothing. Without a mount, tracking stops. While
    /// the operator adjusts, and until the speed of the mount is known,
    /// nothing is done. Else the position is read first. A failed read ends
    /// the tick. A reading that raises the travel alarm stops tracking and
    /// the mount. Without a target, tracking stops. Else each axis is
    /// commanded to the target's rate plus a quarter of its pointing error
    /// per second, within the speed limit; the aim is the target or, where
    /// a correction is saved, the point `adjusted` that the caller worked
    /// out from it.
    pub fn on_timer<M: Mount>(
        &mut self,
        mount: &mut Option<MountWrapper<M>>,
        mount_spd: &MountSpeed,
        target: &Option<Target>,
        adjusted: Option<(Angle, Angle)>,
    ) -> (outcome: TickOutcome)
        ensures
            final(self)@ == if outcome.stops() {
                old(self)@.stopped()
            } else {
                old(self)@
            },
            *old(mount) is None <==> *final(mount) is None,
            old(self)@.state == TrackingState::Idle ==> outcome is NotActive,
            old(self)@.state != TrackingState::Idle && *old(mount) is None ==> outcome
                == TickOutcome::Stopped(TrackingError::MountNotConnected),
            old(self)@.state == TrackingState::Adjusting && *old(mount) is Some ==> outcome
                is Adjusting,
            old(self)@.state == TrackingState::Tracking && *old(mount) is Some
                && mount_spd.axes_spd() is None ==> outcome is AwaitingSpeedEstimate,
            old(self)@.state == TrackingState::Tracking && *old(mount) is Some
                && mount_spd.axes_spd() is Some ==> (outcome is PositionUnavailable
                || outcome is TravelExceeded || outcome is Commanded || outcome
                == TickOutcome::Stopped(TrackingError::NoTarget)),
            outcome is NotActive || outcome is Adjusting || outcome is AwaitingSpeedEstimate
                || outcome is PositionUnavailable ==> (*old(mount) matches Some(before)
                ==> (*final(mount))->0.calibration() == before.calibration()),
            outcome is TravelExceeded || outcome is Commanded || outcome == TickOutcome::Stopped(
                TrackingError::NoTarget,
            ) ==> *old(mount) is Some && reading_taken(
                (*old(mount))->0.calibration(),
                (*final(mount))->0.calibration(),
            ),
            outcome matches TickOutcome::TravelExceeded { alarm, .. } ==> (alarm.axis1
                || alarm.axis2) && alarm_of((*old(mount))->0.calibration(), (*final(mount))->0.calibration())
                == Some(alarm),
            outcome is Commanded || outcome == TickOutcome::Stopped(TrackingError::NoTarget)
                ==> !(alarm_of((*old(mount))->0.calibration(), (*final(mount))->0.calibration())
                matches Some(alarm) && (alarm.axis1 || alarm.axis2)),
            outcome == TickOutcome::Stopped(TrackingError::NoTarget) ==> target is None,
            outcome matches TickOutcome::Commanded { position, axis1, axis2, .. } ==> {
                let raw = (*final(mount))->0.calibration().last_pos->0;
                let aim = aim_spec(target->0, old(self)@.adjustment, adjusted);
                &&& target is Some
                &&& position == (*old(mount))->0.calibration().calibrated(raw)
                &&& axis1@ == axis_speed_spec(
                    angle_diff_spec(position.0@, aim.0@),
                    target->0.az_spd@,
                    old(self)@.max_spd@,
                )
                &&& axis2@ == axis_speed_spec(
                    angle_diff_spec(position.1@, aim.1@),
                    target->0.alt_spd@,
                    old(self)@.max_spd@,
                )
            },
    {
        proof {
            use_type_invariant(&*self);
        }
        if let TrackingState::Idle = self.state {
            return TickOutcome::NotActive;
        }
        match mount {
            None => {
                self.stop();
                TickOutcome::Stopped(TrackingError::MountNotConnected)
            },
            Some(wrapper) => {
                if let TrackingState::Adjusting = self.state {
                    return TickOutcome::Adjusting;
                }
                if mount_spd.get().is_none() {
                    return TickOutcome::AwaitingSpeedEstimate;
                }
                let position = match wrapper.position() {
                    Ok(p) => p,
                    Err(e) => {
                        return TickOutcome::PositionUnavailable(e);
                    },
                };
                if let Some(alarm) = wrapper.take_travel_alarm() {
                    if let Some(stop) = self.on_max_travel_exceeded(
                        wrapper,
                        alarm.axis1,
                        alarm.axis2,
                    ) {
                        return TickOutcome::TravelExceeded { alarm, mount_stop: stop.mount_stop };
                    }
                }
                let target = match target {
                    Some(t) => t,
                    None => {
                        self.stop();
                        return TickOutcome::Stopped(TrackingError::NoTarget);
                    },
                };
                let aim = aim_point(target, self.adjustment, adjusted);
                let az_delta = angle_diff(position.0, aim.0);
                let alt_delta = angle_diff(position.1, aim.1);
                let (axis1, axis1_result) = self.update_axis(
                    wrapper,
                    Axis::Primary,
                    az_delta,
                    target.az_spd,
                );
                let (axis2, axis2_result) = self.update_axis(
                    wrapper,
                    Axis::Secondary,
                    alt_delta,
                    target.alt_spd,
                );
                TickOutcome::Commanded { position, axis1, axis1_result, axis2, axis2_result }
            },
        }
    }
}

/// What a manual slew does to the engine, and what it reports.
///
/// An idle engine does nothing. Without a target, and with a target but
/// without a mount, tracking stops. Else the engine is adjusting, and the
/// speeds commanded are the target's rates plus the given shares of the
/// adjustment speed; the slew has begun an adjustment where the engine was
/// plainly tracking before.
pub open spec fn adjust_slew_spec(
    before: TrackingView,
    after: TrackingView,
    outcome: AdjustOutcome,
    axis1_rel: i32,
    axis2_rel: i32,
    mount_connected: bool,
    target: Option<Target>,
) -> bool {
    if !before.is_active() {
        outcome is NotActive && after == before
    } else if target is None {
        outcome == AdjustOutcome::Stopped(TrackingError::NoTarget) && after == before.stopped()
    } else if !mount_connected {
        outcome == AdjustOutcome::Stopped(TrackingError::MountNotConnected) && after
            == before.stopped()
    } else {
        &&& after == (TrackingView { state: TrackingState::Adjusting, ..before })
        &&& outcome matches AdjustOutcome::Slewed { began, axis1, axis2, .. }
        &&& began == (before.state == TrackingState::Tracking)
        &&& axis1@ == adjust_speed_spec(
            target->0.az_spd@,
            axis1_rel as int,
            before.adjustment_slew_speed@,
        )
        &&& axis2@ == adjust_speed_spec(
            target->0.alt_spd@,
            axis2_rel as int,
            before.adjustment_slew_speed@,
        )
    }
}

impl Tracking {
    fn adjust_speed(target_spd: AngularSpeed, rel: i32, adjustment_spd: AngularSpeed) -> (r:
        AngularSpeed)
        requires
            MIN_ADJUSTMENT_SPD <= adjustment_spd@ <= MAX_ADJUSTMENT_SPD,
        ensures
            r@ == adjust_speed_spec(target_spd@, rel as int, adjustment_spd@),
    {
        let r: i128 = rel as i128;
        let a: i128 = adjustment_spd.centiarcsec_per_s as i128;
        assert(-0x8000_0000 * 180_000 <= r * a <= 0x8000_0000 * 180_000) by (nonlinear_arith)
            requires
                -0x8000_0000 <= r < 0x8000_0000,
                0 <= a <= 180_000,
        ;
        let share: i64 = divide_toward_zero(r * a, FULL_DEFLECTION as i128);
        AngularSpeed { centiarcsec_per_s: saturating_sum(target_spd.centiarcsec_per_s, share) }
    }

    /// Slews by hand while tracking. `axis1_rel` and `axis2_rel` are
    /// relative speeds between `-FULL_DEFLECTION` and `FULL_DEFLECTION`.
    ///
    /// An idle engine does nothing. Else the engine is adjusting from now
    /// on, and both axes are commanded to the target's rate plus the given
    /// share of the adjustment speed. Without a target or a mount, tracking
    /// stops, of which observers are to be told.
    pub fn adjust_slew<M: Mount>(
        &mut self,
        axis1_rel: i32,
        axis2_rel: i32,
        mount: &mut Option<MountWrapper<M>>,
        target: &Option<Target>,
    ) -> (outcome: AdjustOutcome)
        ensures
            *old(mount) is None <==> *final(mount) is None,
            *old(mount) matches Some(before) ==> (*final(mount))->0.calibration()
                == before.calibration(),
            adjust_slew_spec(
                old(self)@,
                final(self)@,
                outcome,
                axis1_rel,
                axis2_rel,
                *old(mount) is Some,
                *target,
            ),
    {
        proof {
            use_type_invariant(&*self);
        }
        let began = match self.state {
            TrackingState::Idle => {
                return AdjustOutcome::NotActive;
            },
            TrackingState::Tracking => true,
            TrackingState::Adjusting => false,
        };
        let target = match target {
            Some(t) => t,
            None => {
                self.stop();
                return AdjustOutcome::Stopped(TrackingError::NoTarget);
            },
        };
        match mount {
            None => {
                self.stop();
                AdjustOutcome::Stopped(TrackingError::MountNotConnected)
            },
            Some(wrapper) => {
                self.state = TrackingState::Adjusting;
                let axis1 = Self::adjust_speed(target.az_spd, axis1_rel, self.adjustment_slew_speed);
                let axis2 = Self::adjust_speed(
                    target.alt_spd,
                    axis2_rel,
                    self.adjustment_slew_speed,
                );
                let result = wrapper.slew(axis1, axis2);
                AdjustOutcome::Slewed { began, axis1, axis2, result }
            },
        }
    }

    /// Prepares the saving of a manual adjustment: reads where the mount
    /// points, for the caller to measure the adjustment from.
    ///
    /// Unless a manual adjustment is under way, and without a target,
    /// nothing is done. Without a mount, tracking stops. A failed read
    /// changes nothing. A reading that raises the travel alarm stops
    /// tracking and the mount.
    pub fn begin_save_adjustment<M: Mount>(
        &mut self,
        mount: &mut Option<MountWrapper<M>>,
        target: &Option<Target>,
    ) -> (r: SavePreparation)
        ensures
            final(self)@ == if r is Stopped || r is TravelExceeded {
                old(self)@.stopped()
            } else {
                old(self)@
            },
            *old(mount) is None <==> *final(mount) is None,
            old(self)@.state != TrackingState::Adjusting ==> r is NotAdjusting,
            old(self)@.state == TrackingState::Adjusting && target is None ==> r is NoTarget,
            old(self)@.state == TrackingState::Adjusting && target is Some && *old(mount) is None
                ==> r == SavePreparation::Stopped(TrackingError::MountNotConnected),
            old(self)@.state == TrackingState::Adjusting && target is Some && *old(mount) is Some
                ==> r is PositionUnavailable || r is TravelExceeded || r is Ready,
            r is NotAdjusting || r is NoTarget || r is PositionUnavailable ==> (
            *old(mount) matches Some(before) ==> (*final(mount))->0.calibration()
                == before.calibration()),
            r is TravelExceeded || r is Ready ==> *old(mount) is Some && reading_taken(
                (*old(mount))->0.calibration(),
                (*final(mount))->0.calibration(),
            ),
            r matches SavePreparation::TravelExceeded { alarm, .. } ==> (alarm.axis1 || alarm.axis2)
                && alarm_of((*old(mount))->0.calibration(), (*final(mount))->0.calibration())
                == Some(alarm),
            r matches SavePreparation::Ready(position) ==> {
                let before = (*old(mount))->0.calibration();
                let after = (*final(mount))->0.calibration();
                &&& position == before.calibrated(after.last_pos->0)
                &&& !(alarm_of(before, after) matches Some(alarm) && (alarm.axis1 || alarm.axis2))
            },
    {
        proof {
            use_type_invariant(&*self);
        }
        match self.state {
            TrackingState::Adjusting => {},
            _ => {
                return SavePreparation::NotAdjusting;
            },
        }
        if target.is_none() {
            return SavePreparation::NoTarget;
        }
        match mount {
            None => {
                self.stop();
                SavePreparation::Stopped(TrackingError::MountNotConnected)
            },
            Some(wrapper) => {
                let position = match wrapper.position() {
                    Ok(p) => p,
                    Err(e) => {
                        return SavePreparation::PositionUnavailable(e);
                    },
                };
                if let Some(alarm) = wrapper.take_travel_alarm() {
                    if let Some(stop) = self.on_max_travel_exceeded(
                        wrapper,
                        alarm.axis1,
                        alarm.axis2,
                    ) {
                        return SavePreparation::TravelExceeded {
                            alarm,
                            mount_stop: stop.mount_stop,
                        };
                    }
                }
                SavePreparation::Ready(position)
            },
        }
    }

    /// Saves the adjustment that the caller has measured between the
    /// target and the position that `begin_save_adjustment` gave. The
    /// engine goes back to plain tracking and aims by the correction from
    /// now on. Unless a manual adjustment is under way, nothing happens.
    pub fn save_adjustment(&mut self, adjustment: Adjustment) -> (saved: bool)
        ensures
            saved == (old(self)@.state == TrackingState::Adjusting),
            final(self)@ == if saved {
                TrackingView {
                    state: TrackingState::Tracking,
                    adjustment: Some(adjustment),
                    ..old(self)@
                }
            } else {
                old(self)@
            },
    {
        proof {
            use_type_invariant(&*self);
        }
        match self.state {
            TrackingState::Adjusting => {
                self.state = TrackingState::Tracking;
                self.adjustment = Some(adjustment);
                true
            },
            _ => false,
        }
    }

    /// Gives up the manual adjustment and any saved correction: an engine
    /// that was adjusting goes back to plain tracking.
    pub fn cancel_adjustment(&mut self)
        ensures
            final(self)@ == (TrackingView {
                state: if old(self)@.state == TrackingState::Adjusting {
                    TrackingState::Tracking
                } else {
                    old(self)@.state
                },
                adjustment: None,
                ..old(self)@
            }),
    {
        proof {
            use_type_invariant(&*self);
        }
        self.adjustment = None;
        if let TrackingState::Adjusting = self.state {
            self.state = TrackingState::Tracking;
        }
    }
}

/// Greatest speed of slewing by hand while not tracking: five degrees per
/// second.
pub const MAX_SLEW_SPD: i64 = 1_800_000;

/// Least speed of slewing by hand while not tracking: a hundredth of a
/// degree per second.
pub const MIN_SLEW_SPD: i64 = 3_600;

/// The slewing speed changed by `factor`: capped at its greatest value,
/// then held above its least.
pub open spec fn scaled_slew_spd(spd: int, factor: Factor) -> int {
    let scaled = toward_zero(spd * factor.num, factor.den as int);
    let capped = if scaled > MAX_SLEW_SPD {
        MAX_SLEW_SPD as int
    } else {
        scaled
    };
    if capped < MIN_SLEW_SPD {
        MIN_SLEW_SPD as int
    } else {
        capped
    }
}

/// The speed commanded for an axis that is slewed by hand while not
/// tracking: the share `rel` of the slewing speed.
pub open spec fn manual_speed_spec(slew_spd: int, rel: int) -> int {
    clamp_i64(toward_zero(slew_spd * rel, FULL_DEFLECTION as int))
}

/// What a stop asked for by the operator did.
#[derive(Clone, Copy, Debug)]
pub struct MountStop {
    /// What observers are to be told.
    pub notify: Running,
    /// Whether the mount took the command to stop.
    pub mount_stop: Result<(), MountError>,
}

/// What a change of the relative speeds did.
#[derive(Clone, Copy, Debug)]
pub enum SlewOutcome {
    /// Tracking is active: the change was taken as a manual adjustment.
    Adjusted(AdjustOutcome),
    /// Tracking is not active: the mount was commanded with the speeds
    /// given.
    Slewed { axis1: AngularSpeed, axis2: AngularSpeed, result: Result<(), MountError> },
    /// Tracking is not active and no mount is connected: nothing was done.
    NoMount,
}

impl Tracking {
    /// Stops the mount and tracking, where a mount is connected; without
    /// one nothing happens.
    pub fn on_stop_mount<M: Mount>(&mut self, mount: &mut Option<MountWrapper<M>>) -> (r: Option<
        MountStop,
    >)
        ensures
            *old(mount) is None <==> *final(mount) is None,
            *old(mount) matches Some(before) ==> (*final(mount))->0.calibration()
                == before.calibration(),
            *old(mount) is None ==> r is None && final(self)@ == old(self)@,
            *old(mount) is Some ==> r is Some && r->0.notify == Running(false) && final(self)@
                == old(self)@.stopped(),
    {
        match mount {
            None => None,
            Some(wrapper) => {
                let mount_stop = wrapper.stop();
                let notify = self.stop();
                Some(MountStop { notify, mount_stop })
            },
        }
    }

    /// Stops tracking where it is active, and starts it where it is not.
    pub fn on_toggle_tracking<M: Mount>(&mut self, mount: &Option<MountWrapper<M>>) -> (r: Option<
        Running,
    >)
        ensures
            old(self)@.is_active() ==> r == Some(Running(false)) && final(self)@ == old(
                self,
            )@.stopped(),
            !old(self)@.is_active() && mount is Some ==> r == Some(Running(true)) && final(self)@
                == (TrackingView { state: TrackingState::Tracking, ..old(self)@ }),
            !old(self)@.is_active() && mount is None ==> r is None && final(self)@ == old(self)@,
    {
        if self.is_active() {
            Some(self.stop())
        } else {
            self.start(mount)
        }
    }

    /// Changes by `factor` the speed of manual adjustments where tracking
    /// is active, and else the speed `slew_speed` of slewing by hand.
    pub fn change_slew_speed(&mut self, factor: Factor, slew_speed: &mut AngularSpeed)
        requires
            factor.den > 0,
        ensures
            old(self)@.is_active() ==> *final(slew_speed) == *old(slew_speed) && final(self)@ == (
            TrackingView {
                adjustment_slew_speed: AngularSpeed {
                    centiarcsec_per_s: scaled_adjustment_spd(
                        old(self)@.adjustment_slew_speed@,
                        factor,
                    ) as i64,
                },
                ..old(self)@
            }),
            !old(self)@.is_active() ==> final(self)@ == old(self)@ && final(slew_speed)@
                == scaled_slew_spd(old(slew_speed)@, factor),
    {
        if self.is_active() {
            self.change_adjustment_slew_speed(factor);
        } else {
            let spd: i128 = slew_speed.centiarcsec_per_s as i128;
            let num: i128 = factor.num as i128;
            assert(-0x8000_0000_0000_0000 * 0x1_0000_0000 <= spd * num <= 0x8000_0000_0000_0000
                * 0x1_0000_0000) by (nonlinear_arith)
                requires
                    -0x8000_0000_0000_0000 <= spd < 0x8000_0000_0000_0000,
                    0 <= num < 0x1_0000_0000,
            ;
            let scaled: i64 = divide_toward_zero(spd * num, factor.den as i128);
            let capped: i64 = if scaled > MAX_SLEW_SPD {
                MAX_SLEW_SPD
            } else {
                scaled
            };
            *slew_speed = AngularSpeed {
                centiarcsec_per_s: if capped < MIN_SLEW_SPD {
                    MIN_SLEW_SPD
                } else {
                    capped
                },
            };
        }
    }

    fn manual_speed(slew_speed: AngularSpeed, rel: i32) -> (r: AngularSpeed)
        ensures
            r@ == manual_speed_spec(slew_speed@, rel as int),
    {
        let spd: i128 = slew_speed.centiarcsec_per_s as i128;
        let r: i128 = rel as i128;
        assert(-0x8000_0000_0000_0000 * 0x8000_0000 <= spd * r <= 0x8000_0000_0000_0000
            * 0x8000_0000) by (nonlinear_arith)
            requires
                -0x8000_0000_0000_0000 <= spd < 0x8000_0000_0000_0000,
                -0x8000_0000 <= r < 0x8000_0000,
        ;
        AngularSpeed { centiarcsec_per_s: divide_toward_zero(spd * r, FULL_DEFLECTION as i128) }
    }

    /// Takes a change of the relative speeds asked through a controller:
    /// a manual adjustment where tracking is active; else, where a mount is
    /// connected, a command to slew at the given shares of `slew_speed`.
    pub fn on_slew_change<M: Mount>(
        &mut self,
        slewing: Slewing,
        slew_speed: AngularSpeed,
        mount: &mut Option<MountWrapper<M>>,
        target: &Option<Target>,
    ) -> (r: SlewOutcome)
        ensures
            *old(mount) is None <==> *final(mount) is None,
            *old(mount) matches Some(before) ==> (*final(mount))->0.calibration()
                == before.calibration(),
            old(self)@.is_active() <==> r is Adjusted,
            r matches SlewOutcome::Adjusted(outcome) ==> adjust_slew_spec(
                old(self)@,
                final(self)@,
                outcome,
                slewing.axis1_rel,
                slewing.axis2_rel,
                *old(mount) is Some,
                *target,
            ),
            !old(self)@.is_active() ==> final(self)@ == old(self)@,
            !old(self)@.is_active() && *old(mount) is None ==> r is NoMount,
            !old(self)@.is_active() && *old(mount) is Some ==> {
                &&& r matches SlewOutcome::Slewed { axis1, axis2, .. }
                &&& axis1@ == manual_speed_spec(slew_speed@, slewing.axis1_rel as int)
                &&& axis2@ == manual_speed_spec(slew_speed@, slewing.axis2_rel as int)
            },
    {
        if self.is_active() {
            return SlewOutcome::Adjusted(
                self.adjust_slew(slewing.axis1_rel, slewing.axis2_rel, mount, target),
            );
        }
        match mount {
            None => SlewOutcome::NoMount,
            Some(wrapper) => {
                let axis1 = Self::manual_speed(slew_speed, slewing.axis1_rel);
                let axis2 = Self::manual_speed(slew_speed, slewing.axis2_rel);
                let result = wrapper.slew(axis1, axis2);
                SlewOutcome::Slewed { axis1, axis2, result }
            },
        }
    }
}

/// Whether `after` is `before` with one reading recorded and the alarm
/// taken.
pub open spec fn reading_taken(before: crate::mount::Calibration, after: crate::mount::Calibration) -> bool {
    &&& after.last_pos is Some
    &&& after == (crate::mount::Calibration { alarm: None, ..before.observe(after.last_pos->0) })
}

/// The alarm that was pending once the reading that leads from `before` to
/// `after` was recorded.
pub open spec fn alarm_of(before: crate::mount::Calibration, after: crate::mount::Calibration) -> Option<TravelAlarm> {
    before.observe(after.last_pos->0).alarm
}

} // verus!
