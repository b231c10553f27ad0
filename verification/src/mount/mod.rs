//! The mount interface, its errors, and the calibrating wrapper that guards
//! the travel of each axis.

use crate::data::{
    angle_diff, angle_diff_spec, clamp_i64, Angle, AngularSpeed, FULL_TURN, HALF_TURN,
};
use vstd::prelude::*;

pub mod framing;
pub mod ioptron;
pub mod simulator;

verus! {

/// One of the two rotation axes of a mount.
#[derive(Clone, Copy, Debug, PartialEq, Eq, Structural)]
pub enum Axis {
    Primary,
    Secondary,
}

impl Axis {
    /// The axis in words.
    pub fn name(&self) -> (r: &'static str)
        ensures
            r@ == match self {
                Axis::Primary => "primary"@,
                Axis::Secondary => "secondary"@,
            },
    {
        match self {
            Axis::Primary => "primary",
            Axis::Secondary => "secondary",
        }
    }
}

/// The kinds of mount that can be connected to.
#[derive(Clone, Copy, Debug, PartialEq, Eq, Structural)]
pub enum MountType {
    Simulator,
    Ioptron,
}

impl MountType {
    /// What the user is asked for to connect to a mount of this kind.
    pub fn connection_param_descr(&self) -> (r: &'static str)
        ensures
            r@ == match self {
                MountType::Simulator => "IP address:"@,
                MountType::Ioptron => "Serial device (e.g., \"/dev/ttyUSB0\" on Linux\nor \"COM3\" on Windows):"@,
            },
    {
        match self {
            MountType::Simulator => "IP address:",
            MountType::Ioptron => "Serial device (e.g., \"/dev/ttyUSB0\" on Linux\nor \"COM3\" on Windows):",
        }
    }
}

/// Why an operation on a mount failed.
#[derive(Clone, Copy, Debug, PartialEq, Eq, Structural)]
pub enum MountError {
    /// The device could not be written to or read from.
    Transport,
    /// A reply did not end within the cap on its length.
    ReplyTooLong,
    /// The reply to a command was not the one expected.
    UnexpectedReply,
    /// The payload of a reply is not a number in range.
    InvalidNumber,
    /// The mount reported no identifier.
    EmptyMountId,
    /// A switch of the protocol mode was not confirmed in time.
    ModeSwitchTimeout,
    /// No position could be read in the time allowed.
    PositionUnavailable,
    /// The peer answered with an error of its own.
    Rejected,
}

impl MountError {
    /// The error in words.
    pub fn describe(&self) -> (r: &'static str)
        ensures
            r@ == match self {
                MountError::Transport => "the device could not be written to or read from"@,
                MountError::ReplyTooLong => "response has too many characters"@,
                MountError::UnexpectedReply => "failed to get expected response"@,
                MountError::InvalidNumber => "response is not a number"@,
                MountError::EmptyMountId => "mount ID is empty"@,
                MountError::ModeSwitchTimeout => "toggling special mode is taking too long"@,
                MountError::PositionUnavailable => "failed to read mount position"@,
                MountError::Rejected => "request was rejected"@,
            },
    {
        match self {
            MountError::Transport => "the device could not be written to or read from",
            MountError::ReplyTooLong => "response has too many characters",
            MountError::UnexpectedReply => "failed to get expected response",
            MountError::InvalidNumber => "response is not a number",
            MountError::EmptyMountId => "mount ID is empty",
            MountError::ModeSwitchTimeout => "toggling special mode is taking too long",
            MountError::PositionUnavailable => "failed to read mount position",
            MountError::Rejected => "request was rejected",
        }
    }
}

/// What every mount can do. Each operation may fail; nothing is promised of
/// what a device answers.
pub trait Mount {
    /// A line that names the mount and its connection.
    fn get_info(&self) -> String;

    /// Commands the angular speed of both axes at once.
    fn slew(&mut self, axis1: AngularSpeed, axis2: AngularSpeed) -> Result<(), MountError>;

    /// Commands the angular speed of one axis; the other keeps the speed
    /// last asked of it.
    fn slew_axis(&mut self, axis: Axis, speed: AngularSpeed) -> Result<(), MountError>;

    /// Brings both axes to rest.
    fn stop(&mut self) -> Result<(), MountError>;

    /// The raw positions of the primary and the secondary axis.
    fn position(&mut self) -> Result<(Angle, Angle), MountError>;
}

/// A boxed mount is a mount: every operation is handed on.
impl<M: Mount + ?Sized> Mount for Box<M> {
    fn get_info(&self) -> String {
        (**self).get_info()
    }

    fn slew(&mut self, axis1: AngularSpeed, axis2: AngularSpeed) -> Result<(), MountError> {
        (**self).slew(axis1, axis2)
    }

    fn slew_axis(&mut self, axis: Axis, speed: AngularSpeed) -> Result<(), MountError> {
        (**self).slew_axis(axis, speed)
    }

    fn stop(&mut self) -> Result<(), MountError> {
        (**self).stop()
    }

    fn position(&mut self) -> Result<(Angle, Angle), MountError> {
        (**self).position()
    }
}

/// Travel allowed to each axis unless another limit is set: one full turn.
pub const DEFAULT_MAX_TRAVEL: i64 = FULL_TURN;

/// Time during which the position that is to become the zero position is
/// asked for again after a failed read, in milliseconds.
pub const ZERO_POSITION_RETRY_MS: u64 = 1_000;

/// The axes found beyond their travel limit when one of them crossed it.
#[derive(Clone, Copy, Debug, PartialEq, Eq, Structural)]
pub struct TravelAlarm {
    pub axis1: bool,
    pub axis2: bool,
}

/// What the wrapper knows besides the mount itself: the offsets that turn
/// raw axis angles into calibrated ones, and the travel of each axis.
#[derive(Clone, Copy, Debug)]
pub struct Calibration {
    /// Added to the raw angle of the primary axis.
    pub axis1_ofs: Angle,
    /// Added to the raw angle of the secondary axis.
    pub axis2_ofs: Angle,
    /// The raw angles that were declared the zero position, if any were.
    pub zero_pos: Option<(Angle, Angle)>,
    /// Signed travel of each axis since the zero position was set; not
    /// wrapped.
    pub total_axis_travel: (Angle, Angle),
    /// The raw angles read last, if any were read.
    pub last_pos: Option<(Angle, Angle)>,
    /// The travel that no axis is to exceed, in either direction.
    pub max_travel: Angle,
    /// The alarm raised by a crossing of the limit and not yet taken.
    pub alarm: Option<TravelAlarm>,
}

/// Whether `total` lies beyond `max` in either direction.
pub open spec fn exceeds(total: int, max: int) -> bool {
    total > max || -total > max
}

/// Whether a step from `before` to `after` crosses the limit: the travel
/// was within it and no longer is.
pub open spec fn newly_exceeded(before: int, after: int, max: int) -> bool {
    !exceeds(before, max) && exceeds(after, max)
}

/// The angle of `v` units, where `v` fits.
pub open spec fn angle_of(v: int) -> Angle {
    Angle { centiarcsec: v as i64 }
}

impl Calibration {
    /// No offsets, no travel, nothing read yet, the default limit.
    pub open spec fn initial() -> Calibration {
        Calibration {
            axis1_ofs: angle_of(0),
            axis2_ofs: angle_of(0),
            zero_pos: None,
            total_axis_travel: (angle_of(0), angle_of(0)),
            last_pos: None,
            max_travel: angle_of(DEFAULT_MAX_TRAVEL as int),
            alarm: None,
        }
    }

    /// The calibrated angles for the raw angles `raw`.
    pub open spec fn calibrated(self, raw: (Angle, Angle)) -> (Angle, Angle) {
        (
            angle_of(clamp_i64(self.axis1_ofs@ + raw.0@)),
            angle_of(clamp_i64(self.axis2_ofs@ + raw.1@)),
        )
    }

    /// The offsets under which the raw angles `raw` are calibrated to
    /// `desired`.
    pub open spec fn with_reference(self, desired: (Angle, Angle), raw: (Angle, Angle)) -> Calibration {
        Calibration {
            axis1_ofs: angle_of(clamp_i64(desired.0@ - raw.0@)),
            axis2_ofs: angle_of(clamp_i64(desired.1@ - raw.1@)),
            ..self
        }
    }

    /// `raw` declared the zero position: travel starts anew.
    pub open spec fn with_zero(self, raw: (Angle, Angle)) -> Calibration {
        Calibration {
            zero_pos: Some(raw),
            total_axis_travel: (angle_of(0), angle_of(0)),
            ..self
        }
    }

    /// The travel of each axis once `raw` is read: the shortest rotation
    /// from the angles read last is added; the first reading adds nothing.
    pub open spec fn travel_after(self, raw: (Angle, Angle)) -> (Angle, Angle) {
        match self.last_pos {
            None => self.total_axis_travel,
            Some(last) => (
                angle_of(clamp_i64(self.total_axis_travel.0@ + angle_diff_spec(last.0@, raw.0@))),
                angle_of(clamp_i64(self.total_axis_travel.1@ + angle_diff_spec(last.1@, raw.1@))),
            ),
        }
    }

    /// Whether reading `raw` takes an axis across the limit.
    pub open spec fn crosses(self, raw: (Angle, Angle)) -> bool {
        let after = self.travel_after(raw);
        self.last_pos is Some && (newly_exceeded(
            self.total_axis_travel.0@,
            after.0@,
            self.max_travel@,
        ) || newly_exceeded(self.total_axis_travel.1@, after.1@, self.max_travel@))
    }

    /// The state once `raw` is read. A crossing raises the alarm, which
    /// names every axis that is beyond the limit then.
    pub open spec fn observe(self, raw: (Angle, Angle)) -> Calibration {
        let after = self.travel_after(raw);
        Calibration {
            total_axis_travel: after,
            last_pos: Some(raw),
            alarm: if self.crosses(raw) {
                Some(
                    TravelAlarm {
                        axis1: exceeds(after.0@, self.max_travel@),
                        axis2: exceeds(after.1@, self.max_travel@),
                    },
                )
            } else {
                self.alarm
            },
            ..self
        }
    }

    /// A calibration with no offsets and no travel.
    pub fn new() -> (c: Calibration)
        ensures
            c == Calibration::initial(),
    {
        Calibration {
            axis1_ofs: Angle { centiarcsec: 0 },
            axis2_ofs: Angle { centiarcsec: 0 },
            zero_pos: None,
            total_axis_travel: (Angle { centiarcsec: 0 }, Angle { centiarcsec: 0 }),
            last_pos: None,
            max_travel: Angle { centiarcsec: DEFAULT_MAX_TRAVEL },
            alarm: None,
        }
    }

    /// Sets the offsets so that the raw angles `raw` are calibrated to
    /// `desired`.
    pub fn set_reference(&mut self, desired: (Angle, Angle), raw: (Angle, Angle))
        ensures
            *final(self) == old(self).with_reference(desired, raw),
    {
        self.axis1_ofs = desired.0.minus(raw.0);
        self.axis2_ofs = desired.1.minus(raw.1);
    }

    /// Declares the raw angles `raw` the zero position, from which travel
    /// is counted anew.
    pub fn set_zero(&mut self, raw: (Angle, Angle))
        ensures
            *final(self) == old(self).with_zero(raw),
    {
        self.zero_pos = Some(raw);
        self.total_axis_travel = (Angle { centiarcsec: 0 }, Angle { centiarcsec: 0 });
    }

    fn is_beyond(total: Angle, max: Angle) -> (r: bool)
        ensures
            r == exceeds(total@, max@),
    {
        let t: i128 = total.centiarcsec as i128;
        let m: i128 = max.centiarcsec as i128;
        t > m || -t > m
    }

    /// Takes the raw angles of a reading: updates the travel of each axis,
    /// raises the alarm on a crossing, and returns the calibrated angles.
    pub fn record(&mut self, raw: (Angle, Angle)) -> (r: (Angle, Angle))
        ensures
            *final(self) == old(self).observe(raw),
            r == old(self).calibrated(raw),
    {
        if let Some(last) = self.last_pos {
            let was1 = Self::is_beyond(self.total_axis_travel.0, self.max_travel);
            let was2 = Self::is_beyond(self.total_axis_travel.1, self.max_travel);
            let total1 = self.total_axis_travel.0.plus(angle_diff(last.0, raw.0));
            let total2 = self.total_axis_travel.1.plus(angle_diff(last.1, raw.1));
            self.total_axis_travel = (total1, total2);
            let is1 = Self::is_beyond(total1, self.max_travel);
            let is2 = Self::is_beyond(total2, self.max_travel);
            if !was1 && is1 || !was2 && is2 {
                self.alarm = Some(TravelAlarm { axis1: is1, axis2: is2 });
            }
        }
        self.last_pos = Some(raw);
        (self.axis1_ofs.plus(raw.0), self.axis2_ofs.plus(raw.1))
    }
}

/// Where an attempt to set the zero position stands.
#[derive(Clone, Copy, Debug, PartialEq, Eq, Structural)]
pub enum ZeroPositionStep {
    /// The zero position is set.
    Done,
    /// The position could not be read: the caller is to try again.
    Retry,
    /// The time allowed has passed: the attempt has failed.
    GaveUp(MountError),
}

/// A mount together with its calibration: positions are reported in the
/// calibrated frame, and the travel of each axis is watched.
pub struct MountWrapper<M: Mount> {
    wrapped: M,
    calibration: Calibration,
}

impl<M: Mount> MountWrapper<M> {
    /// The calibration and travel that the wrapper holds.
    pub closed spec fn calibration(&self) -> Calibration {
        self.calibration
    }

    /// Wraps a mount: no offsets, no travel, the default limit.
    pub fn new(wrapped: M) -> (w: MountWrapper<M>)
        ensures
            w.calibration() == Calibration::initial(),
    {
        MountWrapper { wrapped, calibration: Calibration::new() }
    }

    /// Sets the travel that no axis is to exceed, in either direction.
    pub fn set_max_travel(&mut self, max_travel: Angle)
        ensures
            final(self).calibration() == (Calibration { max_travel, ..old(self).calibration() }),
    {
        self.calibration.max_travel = max_travel;
    }

    /// Takes the alarm that a crossing of the travel limit has raised, if
    /// there is one. A crossing raises it once; it is raised again only by
    /// another crossing.
    pub fn take_travel_alarm(&mut self) -> (alarm: Option<TravelAlarm>)
        ensures
            alarm == old(self).calibration().alarm,
            final(self).calibration() == (Calibration { alarm: None, ..old(self).calibration() }),
    {
        let alarm = self.calibration.alarm;
        self.calibration.alarm = None;
        alarm
    }

    /// Declares that the mount points at the calibrated angles `axis1` and
    /// `axis2` now: reads the raw position and sets the offsets to the
    /// difference. Where the read fails nothing changes.
    pub fn set_reference_position(&mut self, axis1: Angle, axis2: Angle) -> (r: Result<
        (),
        MountError,
    >)
        ensures
            r is Err ==> final(self).calibration() == old(self).calibration(),
            r is Ok ==> exists|raw: (Angle, Angle)|
                final(self).calibration() == old(self).calibration().with_reference(
                    (axis1, axis2),
                    raw,
                ),
    {
        match self.wrapped.position() {
            Err(e) => Err(e),
            Ok(raw) => {
                self.calibration.set_reference((axis1, axis2), raw);
                Ok(())
            },
        }
    }

    /// The raw angles that were declared the zero position, if any were.
    pub fn zero_position(&self) -> (r: Option<(Angle, Angle)>)
        ensures
            r == self.calibration().zero_pos,
    {
        self.calibration.zero_pos
    }

    /// Declares the present raw position the zero position, from which
    /// travel is counted: one round of an attempt that has gone on for
    /// `elapsed_ms` milliseconds.
    ///
    /// Within the time allowed the raw position is read. Where that
    /// succeeds it is stored and the travel of both axes is set to nothing;
    /// where it fails nothing changes and the caller is to try again. Once
    /// the time allowed has passed, nothing is read and the attempt has
    /// failed.
    pub fn set_zero_position(&mut self, elapsed_ms: u64) -> (r: ZeroPositionStep)
        ensures
            elapsed_ms >= ZERO_POSITION_RETRY_MS ==> r == ZeroPositionStep::GaveUp(
                MountError::PositionUnavailable,
            ),
            elapsed_ms < ZERO_POSITION_RETRY_MS ==> r == ZeroPositionStep::Done || r
                == ZeroPositionStep::Retry,
            r != ZeroPositionStep::Done ==> final(self).calibration() == old(self).calibration(),
            r == ZeroPositionStep::Done ==> final(self).calibration().zero_pos is Some
                && final(self).calibration() == old(self).calibration().with_zero(
                final(self).calibration().zero_pos->0,
            ),
    {
        if elapsed_ms >= ZERO_POSITION_RETRY_MS {
            return ZeroPositionStep::GaveUp(MountError::PositionUnavailable);
        }
        match self.wrapped.position() {
            Err(_) => ZeroPositionStep::Retry,
            Ok(raw) => {
                self.calibration.set_zero(raw);
                ZeroPositionStep::Done
            },
        }
    }

    /// Signed travel of each axis since the zero position was set.
    pub fn total_axis_travel(&self) -> (r: (Angle, Angle))
        ensures
            r == self.calibration().total_axis_travel,
    {
        self.calibration.total_axis_travel
    }
}

impl<M: Mount> Mount for MountWrapper<M> {
    fn get_info(&self) -> String {
        self.wrapped.get_info()
    }

    fn slew(&mut self, axis1: AngularSpeed, axis2: AngularSpeed) -> (r: Result<(), MountError>)
        ensures
            final(self).calibration() == old(self).calibration(),
    {
        self.wrapped.slew(axis1, axis2)
    }

    fn slew_axis(&mut self, axis: Axis, speed: AngularSpeed) -> (r: Result<(), MountError>)
        ensures
            final(self).calibration() == old(self).calibration(),
    {
        self.wrapped.slew_axis(axis, speed)
    }

    fn stop(&mut self) -> (r: Result<(), MountError>)
        ensures
            final(self).calibration() == old(self).calibration(),
    {
        self.wrapped.stop()
    }

    /// The calibrated position. The raw position is read and recorded: the
    /// travel of each axis grows by the shortest rotation since the reading
    /// before, and a crossing of the limit raises the alarm. Where the read
    /// fails nothing changes.
    fn position(&mut self) -> (r: Result<(Angle, Angle), MountError>)
        ensures
            r is Err ==> final(self).calibration() == old(self).calibration(),
            r matches Ok(calibrated) ==> {
                let raw = final(self).calibration().last_pos;
                &&& raw is Some
                &&& final(self).calibration() == old(self).calibration().observe(raw->0)
                &&& calibrated == old(self).calibration().calibrated(raw->0)
            },
    {
        match self.wrapped.position() {
            Err(e) => Err(e),
            Ok(raw) => Ok(self.calibration.record(raw)),
        }
    }
}

impl Calibration {
    /// The state once the first `n` of the readings `raws` are taken.
    pub open spec fn observe_all(self, raws: Seq<(Angle, Angle)>, n: nat) -> Calibration
        decreases n,
    {
        if n == 0 {
            self
        } else {
            self.observe_all(raws, (n - 1) as nat).observe(raws[n - 1])
        }
    }

    /// Whether reading number `k` of `raws` takes the primary axis across
    /// the limit.
    pub open spec fn primary_crosses_at(self, raws: Seq<(Angle, Angle)>, k: nat) -> bool {
        newly_exceeded(
            self.observe_all(raws, k).total_axis_travel.0@,
            self.observe_all(raws, k + 1).total_axis_travel.0@,
            self.max_travel@,
        )
    }

    /// Whether every reading of `raws` finds the primary axis where it was
    /// or further on in the positive direction.
    pub open spec fn primary_turns_forward(self, raws: Seq<(Angle, Angle)>) -> bool {
        forall|k: nat|
            k < raws.len() ==> ((#[trigger] self.observe_all(raws, k)).last_pos matches Some(last)
                ==> angle_diff_spec(last.0@, raws[k as int].0@) >= 0)
    }

    /// Whether the secondary axis is within the limit before and after
    /// every reading of `raws`.
    pub open spec fn secondary_stays_within(self, raws: Seq<(Angle, Angle)>) -> bool {
        forall|k: nat|
            k <= raws.len() ==> !exceeds(
                (#[trigger] self.observe_all(raws, k)).total_axis_travel.1@,
                self.max_travel@,
            )
    }
}

proof fn lemma_observe_all_keeps_limit(c: Calibration, raws: Seq<(Angle, Angle)>, n: nat)
    ensures
        c.observe_all(raws, n).max_travel == c.max_travel,
        n > 0 ==> c.observe_all(raws, n).last_pos is Some,
    decreases n,
{
    if n > 0 {
        lemma_observe_all_keeps_limit(c, raws, (n - 1) as nat);
    }
}

proof fn lemma_forward_travel_grows(c: Calibration, raws: Seq<(Angle, Angle)>, i: nat, j: nat)
    requires
        c.primary_turns_forward(raws),
        0 <= c.total_axis_travel.0@,
        c.total_axis_travel.0@ + raws.len() * HALF_TURN <= i64::MAX,
        i <= j <= raws.len(),
    ensures
        c.total_axis_travel.0@ <= c.observe_all(raws, i).total_axis_travel.0@ <= c.observe_all(
            raws,
            j,
        ).total_axis_travel.0@ <= c.total_axis_travel.0@ + j * HALF_TURN,
    decreases j,
{
    if j == 0 {
    } else {
        let k = (j - 1) as nat;
        let before = c.observe_all(raws, k);
        assert(k < raws.len());
        if i <= k {
            lemma_forward_travel_grows(c, raws, i, k);
        } else {
            lemma_forward_travel_grows(c, raws, k, k);
        }
        assert(before.total_axis_travel.0@ <= c.total_axis_travel.0@ + k * HALF_TURN);
        assert(k * HALF_TURN + HALF_TURN == j * HALF_TURN) by (nonlinear_arith)
            requires
                j == k + 1,
        ;
        assert(j * HALF_TURN <= raws.len() * HALF_TURN) by (nonlinear_arith)
            requires
                j <= raws.len(),
        ;
        match before.last_pos {
            None => {},
            Some(last) => {
                assert(-HALF_TURN < angle_diff_spec(last.0@, raws[k as int].0@) <= HALF_TURN);
            },
        }
    }
}

/// Where the primary axis turns only forwards, from a travel within the
/// limit, and the secondary axis stays within it, the alarm is raised by
/// one reading at most: the first after which the travel of the primary
/// axis is beyond the limit. Every reading that ends beyond the limit comes
/// after such a crossing.
pub proof fn lemma_limit_trips_once(c: Calibration, raws: Seq<(Angle, Angle)>)
    requires
        0 <= c.total_axis_travel.0@ <= c.max_travel@,
        c.total_axis_travel.0@ + raws.len() * HALF_TURN <= i64::MAX,
        c.primary_turns_forward(raws),
        c.secondary_stays_within(raws),
    ensures
        forall|k: nat|
            k < raws.len() ==> (#[trigger] c.observe_all(raws, k).crosses(raws[k as int])
                <==> c.observe_all(raws, k).total_axis_travel.0@ <= c.max_travel@ < c.observe_all(
                raws,
                k + 1,
            ).total_axis_travel.0@),
        forall|i: nat, j: nat|
            i < j < raws.len() ==> !(#[trigger] c.observe_all(raws, i).crosses(raws[i as int])
                && #[trigger] c.observe_all(raws, j).crosses(raws[j as int])),
        forall|n: nat|
            n <= raws.len() && #[trigger] c.observe_all(raws, n).total_axis_travel.0@
                > c.max_travel@ ==> exists|k: nat|
                k < n && #[trigger] c.observe_all(raws, k).crosses(raws[k as int]),
{
    assert forall|k: nat| k < raws.len() implies (#[trigger] c.observe_all(raws, k).crosses(
        raws[k as int],
    ) <==> c.observe_all(raws, k).total_axis_travel.0@ <= c.max_travel@ < c.observe_all(
        raws,
        k + 1,
    ).total_axis_travel.0@) by {
        lemma_crossing_is_first_excess(c, raws, k);
    }
    assert forall|i: nat, j: nat| i < j < raws.len() implies !(#[trigger] c.observe_all(
        raws,
        i,
    ).crosses(raws[i as int]) && #[trigger] c.observe_all(raws, j).crosses(raws[j as int])) by {
        lemma_crossing_is_first_excess(c, raws, i);
        lemma_crossing_is_first_excess(c, raws, j);
        lemma_forward_travel_grows(c, raws, i + 1, j);
    }
    assert forall|n: nat|
        n <= raws.len() && #[trigger] c.observe_all(raws, n).total_axis_travel.0@
            > c.max_travel@ implies exists|k: nat|
        k < n && #[trigger] c.observe_all(raws, k).crosses(raws[k as int]) by {
        lemma_excess_follows_crossing(c, raws, n);
    }
}

proof fn lemma_crossing_is_first_excess(c: Calibration, raws: Seq<(Angle, Angle)>, k: nat)
    requires
        0 <= c.total_axis_travel.0@ <= c.max_travel@,
        c.total_axis_travel.0@ + raws.len() * HALF_TURN <= i64::MAX,
        c.primary_turns_forward(raws),
        c.secondary_stays_within(raws),
        k < raws.len(),
    ensures
        c.observe_all(raws, k).crosses(raws[k as int]) <==> c.observe_all(
            raws,
            k,
        ).total_axis_travel.0@ <= c.max_travel@ < c.observe_all(raws, k + 1).total_axis_travel.0@,
{
    let before = c.observe_all(raws, k);
    let after = c.observe_all(raws, k + 1);
    assert(after == before.observe(raws[k as int]));
    lemma_observe_all_keeps_limit(c, raws, k);
    lemma_forward_travel_grows(c, raws, k, k + 1);
    assert(!exceeds(before.total_axis_travel.1@, c.max_travel@));
    assert(!exceeds(after.total_axis_travel.1@, c.max_travel@));
}

proof fn lemma_excess_follows_crossing(c: Calibration, raws: Seq<(Angle, Angle)>, n: nat)
    requires
        0 <= c.total_axis_travel.0@ <= c.max_travel@,
        c.total_axis_travel.0@ + raws.len() * HALF_TURN <= i64::MAX,
        c.primary_turns_forward(raws),
        c.secondary_stays_within(raws),
        n <= raws.len(),
        c.observe_all(raws, n).total_axis_travel.0@ > c.max_travel@,
    ensures
        exists|k: nat| k < n && #[trigger] c.observe_all(raws, k).crosses(raws[k as int]),
    decreases n,
{
    assert(n > 0);
    let k = (n - 1) as nat;
    if c.observe_all(raws, k).total_axis_travel.0@ > c.max_travel@ {
        lemma_excess_follows_crossing(c, raws, k);
    } else {
        lemma_crossing_is_first_excess(c, raws, k);
        assert(c.observe_all(raws, k).crosses(raws[k as int]));
    }
}

} // verus!
