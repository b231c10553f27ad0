//! Angles, angular speeds and the shortest signed difference between angles.
//!
//! Angles are integers counted in hundredths of an arcsecond. Sums that could
//! leave the range of `i64` saturate at its ends; `clamp_i64` says how.

use vstd::arithmetic::div_mod::{
    lemma_fundamental_div_mod, lemma_mod_add_multiples_vanish, lemma_mod_multiples_vanish,
    lemma_small_mod, lemma_sub_mod_noop,
};
use vstd::prelude::*;

verus! {

/// Number of angle units (hundredths of an arcsecond) in one degree.
pub const UNITS_PER_DEGREE: i64 = 360_000;

/// Number of angle units in a full turn of 360 degrees.
pub const FULL_TURN: i64 = 129_600_000;

/// Number of angle units in half a turn.
pub const HALF_TURN: i64 = 64_800_000;

/// An angle in hundredths of an arcsecond. Values are not wrapped: an angle
/// may count several turns in either direction.
#[derive(Clone, Copy, Debug, PartialEq, Eq, Structural)]
pub struct Angle {
    pub centiarcsec: i64,
}

impl View for Angle {
    type V = int;

    open spec fn view(&self) -> int {
        self.centiarcsec as int
    }
}

/// An angular speed in hundredths of an arcsecond per second.
#[derive(Clone, Copy, Debug, PartialEq, Eq, Structural)]
pub struct AngularSpeed {
    pub centiarcsec_per_s: i64,
}

impl View for AngularSpeed {
    type V = int;

    open spec fn view(&self) -> int {
        self.centiarcsec_per_s as int
    }
}

/// `v` held to the range of `i64`.
pub open spec fn clamp_i64(v: int) -> int {
    if v < i64::MIN {
        i64::MIN as int
    } else if v > i64::MAX {
        i64::MAX as int
    } else {
        v
    }
}

/// `v` reduced to `[0, FULL_TURN)`.
pub open spec fn wrap_turn(v: int) -> int {
    v % (FULL_TURN as int)
}

/// The signed rotation from `a` to `b` along the shorter way round: the one
/// value congruent to `b - a` modulo a full turn that lies in
/// `(-HALF_TURN, HALF_TURN]`.
pub open spec fn angle_diff_spec(a: int, b: int) -> int {
    let d = wrap_turn(b - a);
    if d > HALF_TURN {
        d - FULL_TURN
    } else {
        d
    }
}

/// The angle of `value` whole degrees.
pub fn deg(value: i32) -> (r: Angle)
    ensures
        r@ == value * UNITS_PER_DEGREE,
{
    Angle { centiarcsec: (value as i64) * UNITS_PER_DEGREE }
}

/// The angular speed of `value` whole degrees per second.
pub fn deg_per_s(value: i32) -> (r: AngularSpeed)
    ensures
        r@ == value * UNITS_PER_DEGREE,
{
    AngularSpeed { centiarcsec_per_s: (value as i64) * UNITS_PER_DEGREE }
}

/// `a + b`, saturating at the ends of `i64`.
pub fn saturating_sum(a: i64, b: i64) -> (r: i64)
    ensures
        r == clamp_i64(a + b),
{
    let wide: i128 = a as i128 + b as i128;
    if wide < i64::MIN as i128 {
        i64::MIN
    } else if wide > i64::MAX as i128 {
        i64::MAX
    } else {
        wide as i64
    }
}

/// `a - b`, saturating at the ends of `i64`.
pub fn saturating_difference(a: i64, b: i64) -> (r: i64)
    ensures
        r == clamp_i64(a - b),
{
    let wide: i128 = a as i128 - b as i128;
    if wide < i64::MIN as i128 {
        i64::MIN
    } else if wide > i64::MAX as i128 {
        i64::MAX
    } else {
        wide as i64
    }
}

impl Angle {
    /// The angle of `centiarcsec` hundredths of an arcsecond.
    pub fn new(centiarcsec: i64) -> (r: Angle)
        ensures
            r@ == centiarcsec,
    {
        Angle { centiarcsec }
    }

    /// The sum of two angles, saturating.
    pub fn plus(self, other: Angle) -> (r: Angle)
        ensures
            r@ == clamp_i64(self@ + other@),
    {
        Angle { centiarcsec: saturating_sum(self.centiarcsec, other.centiarcsec) }
    }

    /// The difference of two angles, saturating. No wrap-around is applied:
    /// see `angle_diff` for the shortest rotation.
    pub fn minus(self, other: Angle) -> (r: Angle)
        ensures
            r@ == clamp_i64(self@ - other@),
    {
        Angle { centiarcsec: saturating_difference(self.centiarcsec, other.centiarcsec) }
    }
}

impl AngularSpeed {
    /// The speed of `centiarcsec_per_s` hundredths of an arcsecond per second.
    pub fn new(centiarcsec_per_s: i64) -> (r: AngularSpeed)
        ensures
            r@ == centiarcsec_per_s,
    {
        AngularSpeed { centiarcsec_per_s }
    }
}

impl Angle {
    /// The angle reduced to `[0°, 360°)`.
    pub fn wrapped(self) -> (r: Angle)
        ensures
            r@ == wrap_turn(self@),
            0 <= r@ < FULL_TURN,
    {
        let t: i64 = self.centiarcsec % FULL_TURN;
        Angle {
            centiarcsec: if t < 0 {
                t + FULL_TURN
            } else {
                t
            },
        }
    }
}

/// Shortest signed difference `a2 - a1`, normalised into `(-180°, 180°]`.
/// The operands may lie anywhere, also outside `[0°, 360°)`.
pub fn angle_diff(a1: Angle, a2: Angle) -> (r: Angle)
    ensures
        r@ == angle_diff_spec(a1@, a2@),
        -HALF_TURN < r@ <= HALF_TURN,
{
    let n1: i64 = a1.wrapped().centiarcsec;
    let n2: i64 = a2.wrapped().centiarcsec;
    let mut d: i64 = n2 - n1;
    if d < 0 {
        d = d + FULL_TURN;
    }
    proof {
        let m = FULL_TURN as int;
        lemma_sub_mod_noop(a2@, a1@, m);
        if n2 - n1 < 0 {
            lemma_mod_add_multiples_vanish(n2 - n1, m);
        }
        lemma_small_mod(d as nat, m as nat);
    }
    if d > HALF_TURN {
        d = d - FULL_TURN;
    }
    Angle { centiarcsec: d }
}

/// The difference always lies in `(-180°, 180°]`.
pub proof fn lemma_angle_diff_range(a: int, b: int)
    ensures
        -HALF_TURN < angle_diff_spec(a, b) <= HALF_TURN,
{
}

/// An angle differs from itself by nothing.
pub proof fn lemma_angle_diff_same(a: int)
    ensures
        angle_diff_spec(a, a) == 0,
{
}

/// Turning `a` by the difference lands on `b`, up to whole turns.
pub proof fn lemma_angle_diff_reaches(a: int, b: int)
    ensures
        wrap_turn(a + angle_diff_spec(a, b)) == wrap_turn(b),
{
    let m = FULL_TURN as int;
    let d = wrap_turn(b - a);
    // b - a == m * q + d
    let q = (b - a) / m;
    assert(b - a == m * q + d) by {
        lemma_fundamental_div_mod(b - a, m);
    }
    if d > HALF_TURN {
        // a + d - m == b - m * (q + 1)
        assert(a + d - m == b + m * (-(q + 1))) by (nonlinear_arith)
            requires
                b - a == m * q + d,
        ;
        lemma_mod_multiples_vanish(-(q + 1), b, m);
    } else {
        assert(a + d == b + m * (-q)) by (nonlinear_arith)
            requires
                b - a == m * q + d,
        ;
        lemma_mod_multiples_vanish(-q, b, m);
    }
}

/// The difference is the only rotation in `(-180°, 180°]` that leads from
/// `a` to `b`.
pub proof fn lemma_angle_diff_unique(a: int, b: int, d: int)
    requires
        -HALF_TURN < d <= HALF_TURN,
        wrap_turn(a + d) == wrap_turn(b),
    ensures
        d == angle_diff_spec(a, b),
{
    let m = FULL_TURN as int;
    let r = angle_diff_spec(a, b);
    lemma_angle_diff_reaches(a, b);
    // (a + d) and (a + r) are congruent, so d - r is a multiple of m
    // that lies strictly between -m and m.
    lemma_fundamental_div_mod(a + d, m);
    lemma_fundamental_div_mod(a + r, m);
    let q1 = (a + d) / m;
    let q2 = (a + r) / m;
    assert(d - r == m * (q1 - q2)) by (nonlinear_arith)
        requires
            a + d == m * q1 + (a + d) % m,
            a + r == m * q2 + (a + r) % m,
            (a + d) % m == (a + r) % m,
    ;
    assert(q1 - q2 == 0) by (nonlinear_arith)
        requires
            d - r == m * (q1 - q2),
            -m < d - r < m,
            m > 0,
    ;
}

/// Swapping the operands negates the difference, except where the two
/// angles are exactly opposite: then both differences are `+180°`.
pub proof fn lemma_angle_diff_antisymmetric(a: int, b: int)
    ensures
        angle_diff_spec(a, b) != HALF_TURN ==> angle_diff_spec(b, a) == -angle_diff_spec(a, b),
        angle_diff_spec(a, b) == HALF_TURN ==> angle_diff_spec(b, a) == HALF_TURN,
{
    let m = FULL_TURN as int;
    let r = angle_diff_spec(a, b);
    lemma_angle_diff_reaches(a, b);
    // b + (-r) is congruent to a
    lemma_fundamental_div_mod(a + r, m);
    lemma_fundamental_div_mod(b, m);
    let q1 = (a + r) / m;
    let q2 = b / m;
    if r != HALF_TURN {
        assert(b - r == a + m * (q2 - q1)) by (nonlinear_arith)
            requires
                a + r == m * q1 + (a + r) % m,
                b == m * q2 + b % m,
                (a + r) % m == b % m,
        ;
        lemma_mod_multiples_vanish(q2 - q1, a, m);
        lemma_angle_diff_unique(b, a, -r);
    } else {
        assert(b + r == a + m * (q2 - q1 + 1)) by (nonlinear_arith)
            requires
                a + r == m * q1 + (a + r) % m,
                b == m * q2 + b % m,
                (a + r) % m == b % m,
                2 * r == m,
        ;
        lemma_mod_multiples_vanish(q2 - q1 + 1, a, m);
        lemma_angle_diff_unique(b, a, r);
    }
}

/// Whole turns added to either operand do not change the difference.
pub proof fn lemma_angle_diff_periodic(a: int, b: int, turns_a: int, turns_b: int)
    ensures
        angle_diff_spec(a + turns_a * FULL_TURN, b + turns_b * FULL_TURN) == angle_diff_spec(a, b),
{
    let m = FULL_TURN as int;
    assert((b + turns_b * m) - (a + turns_a * m) == (b - a) + m * (turns_b - turns_a))
        by (nonlinear_arith);
    lemma_mod_multiples_vanish(turns_b - turns_a, b - a, m);
}

/// `a / b` rounded towards zero, for a positive `b`.
pub open spec fn toward_zero(a: int, b: int) -> int {
    if a >= 0 {
        a / b
    } else {
        -((-a) / b)
    }
}

/// `a / b` rounded towards zero, held to the range of `i64`.
pub fn divide_toward_zero(a: i128, b: i128) -> (r: i64)
    requires
        b > 0,
        a > i128::MIN,
    ensures
        r == clamp_i64(toward_zero(a as int, b as int)),
{
    let q: i128 = if a >= 0 {
        a / b
    } else {
        -((-a) / b)
    };
    if q < i64::MIN as i128 {
        i64::MIN
    } else if q > i64::MAX as i128 {
        i64::MAX
    } else {
        q as i64
    }
}

/// Where a target is seen and how fast it moves across the sky.
#[derive(Clone, Copy, Debug, PartialEq, Eq, Structural)]
pub struct Target {
    /// Azimuth of the target.
    pub azimuth: Angle,
    /// Altitude of the target above the horizon.
    pub altitude: Angle,
    /// Rate at which the azimuth changes.
    pub az_spd: AngularSpeed,
    /// Rate at which the altitude changes.
    pub alt_spd: AngularSpeed,
}

/// The speed at which an axis got from `last` to `now` in `dt_ms`
/// milliseconds, which is positive.
pub open spec fn speed_between(last: int, now: int, dt_ms: int) -> int {
    clamp_i64(toward_zero((now - last) * 1000, dt_ms))
}

/// A reading of both axes and the time at which it was made.
#[derive(Clone, Copy, Debug, PartialEq, Eq, Structural)]
pub struct TimedPosition {
    /// Milliseconds on a clock that does not run backwards.
    pub at_ms: u64,
    pub axis1_pos: Angle,
    pub axis2_pos: Angle,
}

/// The speeds of both axes.
#[derive(Clone, Copy, Debug, PartialEq, Eq, Structural)]
pub struct AxesSpeed {
    pub axis1: AngularSpeed,
    pub axis2: AngularSpeed,
}

/// Estimates the speed of each axis from successive readings of the mount's
/// position.
#[derive(Clone, Copy, Debug)]
pub struct MountSpeed {
    last_pos: Option<TimedPosition>,
    axes_spd: Option<AxesSpeed>,
}

impl MountSpeed {
    /// The reading taken last, if any was.
    pub closed spec fn last_pos(&self) -> Option<TimedPosition> {
        self.last_pos
    }

    /// The estimate, once two readings at different times are in.
    pub closed spec fn axes_spd(&self) -> Option<AxesSpeed> {
        self.axes_spd
    }

    /// The estimate after the reading `now`, given the reading before it
    /// and the estimate so far: the difference of the angles over the time
    /// between the readings, where time has passed.
    pub open spec fn estimate(last: Option<TimedPosition>, so_far: Option<AxesSpeed>, now: TimedPosition) -> Option<AxesSpeed> {
        match last {
            Some(last) if now.at_ms > last.at_ms => Some(
                AxesSpeed {
                    axis1: AngularSpeed {
                        centiarcsec_per_s: speed_between(
                            last.axis1_pos@,
                            now.axis1_pos@,
                            now.at_ms - last.at_ms,
                        ) as i64,
                    },
                    axis2: AngularSpeed {
                        centiarcsec_per_s: speed_between(
                            last.axis2_pos@,
                            now.axis2_pos@,
                            now.at_ms - last.at_ms,
                        ) as i64,
                    },
                },
            ),
            _ => so_far,
        }
    }

    /// An estimator that has seen no reading.
    pub fn new() -> (r: MountSpeed)
        ensures
            r.last_pos() is None,
            r.axes_spd() is None,
    {
        MountSpeed { last_pos: None, axes_spd: None }
    }

    /// Takes a reading of both axes made at `now_ms`, in milliseconds on a
    /// clock that does not run backwards.
    pub fn notify_pos(&mut self, axis1_pos: Angle, axis2_pos: Angle, now_ms: u64)
        ensures
            final(self).last_pos() == Some(TimedPosition { at_ms: now_ms, axis1_pos, axis2_pos }),
            final(self).axes_spd() == MountSpeed::estimate(
                old(self).last_pos(),
                old(self).axes_spd(),
                TimedPosition { at_ms: now_ms, axis1_pos, axis2_pos },
            ),
    {
        if let Some(last) = self.last_pos {
            if now_ms > last.at_ms {
                let dt: i128 = (now_ms - last.at_ms) as i128;
                let d1: i128 = (axis1_pos.centiarcsec as i128 - last.axis1_pos.centiarcsec as i128)
                    * 1000;
                let d2: i128 = (axis2_pos.centiarcsec as i128 - last.axis2_pos.centiarcsec as i128)
                    * 1000;
                self.axes_spd = Some(
                    AxesSpeed {
                        axis1: AngularSpeed { centiarcsec_per_s: divide_toward_zero(d1, dt) },
                        axis2: AngularSpeed { centiarcsec_per_s: divide_toward_zero(d2, dt) },
                    },
                );
            }
        }
        self.last_pos = Some(TimedPosition { at_ms: now_ms, axis1_pos, axis2_pos });
    }

    /// The estimated speed of each axis, once there is one.
    pub fn get(&self) -> (r: Option<AxesSpeed>)
        ensures
            r == self.axes_spd(),
    {
        self.axes_spd
    }
}

/// The relative speed that stands for a full deflection of a control axis.
pub const FULL_DEFLECTION: i32 = 1_000_000;

/// The relative speed asked of each axis through a controller, from
/// `-FULL_DEFLECTION` to `FULL_DEFLECTION`.
#[derive(Clone, Copy, Debug, PartialEq, Eq, Structural)]
pub struct Slewing {
    pub axis1_rel: i32,
    pub axis2_rel: i32,
}

impl Default for Slewing {
    fn default() -> (r: Slewing)
        ensures
            r == (Slewing { axis1_rel: 0, axis2_rel: 0 }),
    {
        Slewing { axis1_rel: 0, axis2_rel: 0 }
    }
}

} // verus!
