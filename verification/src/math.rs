//! Fixed-point scalars, vectors and transforms.
//!
//! Lengths are whole numbers of length units, [`LENGTH_UNIT`] of them to one
//! world unit. Angles are whole numbers of angle units, [`DEGREE`] of them to
//! one degree. Every operation is exact over the integers; a length that
//! leaves the range of `i64` stops at the nearest limit.

use vstd::arithmetic::div_mod::*;
use vstd::prelude::*;

verus! {

/// One world unit, in length units.
pub const LENGTH_UNIT: i64 = 1_000_000;

/// One degree, in angle units.
pub const DEGREE: i64 = 1_000_000_000;

/// A full turn, in angle units.
pub const FULL_TURN: i64 = 360_000_000_000;

/// One second, in the microseconds that frame times are measured in.
pub const SECOND: u64 = 1_000_000;

/// The whole of a distance, in the parts in which a share of it is given.
pub const WHOLE: u32 = 1_000_000;

/// The value of `i64` nearest to `value`.
pub open spec fn saturate(value: int) -> int {
    if value < i64::MIN {
        i64::MIN as int
    } else if value > i64::MAX {
        i64::MAX as int
    } else {
        value
    }
}

/// The value of `[low, high]` nearest to `value`.
pub open spec fn clamp(value: int, low: int, high: int) -> int {
    if value < low {
        low
    } else if value > high {
        high
    } else {
        value
    }
}

/// The angle in `[0, FULL_TURN)` that names the same direction as `angle`.
pub open spec fn wrap_angle(angle: int) -> int {
    angle % (FULL_TURN as int)
}

/// The magnitude of `value`.
pub open spec fn magnitude(value: int) -> int {
    if value >= 0 {
        value
    } else {
        -value
    }
}

/// `numerator / divisor` for a numerator that is not negative, rounded to the
/// nearest integer, a half rounding up.
pub open spec fn half_up(numerator: int, divisor: int) -> int {
    numerator / divisor + if 2 * (numerator % divisor) >= divisor {
        1int
    } else {
        0int
    }
}

/// `numerator / divisor`, rounded to the nearest integer, a half rounding
/// away from zero.
pub open spec fn round_div(numerator: int, divisor: int) -> int {
    if numerator >= 0 {
        half_up(numerator, divisor)
    } else {
        -half_up(-numerator, divisor)
    }
}

/// The multiple of `step` nearest to `position`; of two equally near
/// multiples, the one farther from zero.
pub open spec fn snap(position: int, step: int) -> int {
    round_div(position, step) * step
}

/// `snap(position, step)` is a multiple of `step`.
pub proof fn lemma_snap_is_multiple(position: int, step: int)
    requires
        step > 0,
    ensures
        snap(position, step) % step == 0,
{
    lemma_mod_multiples_basic(round_div(position, step), step);
}

/// `snap` of the mirror image is the mirror image of `snap`.
pub proof fn lemma_snap_mirror(position: int, step: int)
    requires
        step > 0,
    ensures
        snap(-position, step) == -snap(position, step),
{
    if position == 0 {
        lemma_fundamental_div_mod_converse(0, step, 0, 0);
    } else if position > 0 {
        let q = half_up(position, step);
        assert((-q) * step == -(q * step)) by (nonlinear_arith);
    } else {
        let q = half_up(-position, step);
        assert((-q) * step == -(q * step)) by (nonlinear_arith);
    }
}

/// `snap(position, step)` lies within half a step of `position`.
pub proof fn lemma_snap_within_half_step(position: int, step: int)
    requires
        step > 0,
    ensures
        2 * magnitude(snap(position, step) - position) <= step,
{
    if position >= 0 {
        lemma_half_up_within_half_step(position, step);
    } else {
        lemma_half_up_within_half_step(-position, step);
        lemma_snap_mirror(-position, step);
    }
}

proof fn lemma_half_up_within_half_step(numerator: int, divisor: int)
    requires
        numerator >= 0,
        divisor > 0,
    ensures
        2 * magnitude(half_up(numerator, divisor) * divisor - numerator) <= divisor,
        half_up(numerator, divisor) >= 0,
        half_up(numerator, divisor) * divisor <= numerator + divisor,
{
    let q = numerator / divisor;
    let r = numerator % divisor;
    lemma_fundamental_div_mod(numerator, divisor);
    lemma_mod_bound(numerator, divisor);
    lemma_div_pos_is_pos(numerator, divisor);
    assert((q + 1) * divisor == q * divisor + divisor) by (nonlinear_arith);
    assert(divisor * q == q * divisor) by (nonlinear_arith);
}

/// The multiple of `step` that lies within half a step of `position`, and
/// farther from zero where two multiples are equally near, is
/// `snap(position, step)`.
pub proof fn lemma_snap_is_nearest(position: int, step: int, multiple: int)
    requires
        step > 0,
        multiple % step == 0,
        2 * magnitude(multiple - position) <= step,
        2 * magnitude(multiple - position) == step ==> magnitude(multiple) > magnitude(position),
    ensures
        snap(position, step) == multiple,
{
    if position >= 0 {
        lemma_half_up_is_nearest(position, step, multiple);
    } else {
        assert((-multiple) % step == 0) by {
            lemma_fundamental_div_mod(multiple, step);
            let k = multiple / step;
            assert(-multiple == (-k) * step) by (nonlinear_arith)
                requires
                    multiple == step * k,
            ;
            lemma_mod_multiples_basic(-k, step);
        }
        lemma_half_up_is_nearest(-position, step, -multiple);
        lemma_snap_mirror(-position, step);
    }
}

proof fn lemma_half_up_is_nearest(numerator: int, divisor: int, multiple: int)
    requires
        numerator >= 0,
        divisor > 0,
        multiple % divisor == 0,
        2 * magnitude(multiple - numerator) <= divisor,
        2 * magnitude(multiple - numerator) == divisor ==> magnitude(multiple) > magnitude(
            numerator,
        ),
    ensures
        half_up(numerator, divisor) * divisor == multiple,
{
    lemma_fundamental_div_mod(multiple, divisor);
    let k = multiple / divisor;
    assert(multiple == k * divisor) by (nonlinear_arith)
        requires
            multiple == divisor * k + 0,
    ;
    if multiple == numerator {
        lemma_fundamental_div_mod_converse(numerator, divisor, k, 0);
    } else if multiple > numerator {
        let r = divisor - (multiple - numerator);
        assert(numerator == (k - 1) * divisor + r) by (nonlinear_arith)
            requires
                multiple == k * divisor,
                r == divisor - (multiple - numerator),
        ;
        lemma_fundamental_div_mod_converse(numerator, divisor, k - 1, r);
        assert((k - 1 + 1) * divisor == k * divisor);
    } else {
        let r = numerator - multiple;
        if 2 * r == divisor {
            // A tie below a position that is not negative is the nearer to
            // zero of the two, unless it is negative itself; and a negative
            // multiple is at least a whole step away.
            assert(multiple < 0);
            assert(k < 0) by (nonlinear_arith)
                requires
                    multiple == k * divisor,
                    multiple < 0,
                    divisor > 0,
            ;
            assert(multiple <= -divisor) by (nonlinear_arith)
                requires
                    multiple == k * divisor,
                    k <= -1,
                    divisor > 0,
            ;
            assert(false);
        }
        assert(numerator == k * divisor + r);
        lemma_fundamental_div_mod_converse(numerator, divisor, k, r);
    }
}

/// Snapping twice is snapping once.
pub proof fn lemma_snap_idempotent(position: int, step: int)
    requires
        step > 0,
    ensures
        snap(snap(position, step), step) == snap(position, step),
{
    lemma_snap_is_multiple(position, step);
    lemma_snap_is_nearest(snap(position, step), step, snap(position, step));
}

/// Snapping, then stopping at the limits of `i64`, is idempotent too, and
/// stays within half a step of a position that is itself within the limits.
pub proof fn lemma_saturated_snap(position: int, step: int)
    requires
        step > 0,
        i64::MIN <= position <= i64::MAX,
    ensures
        saturate(snap(saturate(snap(position, step)), step)) == saturate(snap(position, step)),
        2 * magnitude(saturate(snap(position, step)) - position) <= step,
{
    let exact = snap(position, step);
    lemma_snap_within_half_step(position, step);
    lemma_snap_is_multiple(position, step);
    if exact > i64::MAX {
        lemma_snap_is_nearest(i64::MAX as int, step, exact);
    } else if exact < i64::MIN {
        lemma_snap_is_nearest(i64::MIN as int, step, exact);
    } else {
        lemma_snap_idempotent(position, step);
    }
}

/// Brings a wide integer into `i64`, stopping at the limits.
pub fn saturate_to_i64(value: i128) -> (result: i64)
    ensures
        result == saturate(value as int),
{
    if value > i64::MAX as i128 {
        i64::MAX
    } else if value < i64::MIN as i128 {
        i64::MIN
    } else {
        value as i64
    }
}

/// Brings a wide integer into `[low, high]`.
pub fn clamp_to_i64(value: i128, low: i64, high: i64) -> (result: i64)
    requires
        low <= high,
    ensures
        result == clamp(value as int, low as int, high as int),
{
    if value < low as i128 {
        low
    } else if value > high as i128 {
        high
    } else {
        value as i64
    }
}

/// Brings an angle into `[0, FULL_TURN)` without changing its direction.
pub fn wrap_to_turn(angle: i128) -> (result: i64)
    ensures
        result == wrap_angle(angle as int),
        0 <= result < FULL_TURN,
{
    let turn: i128 = FULL_TURN as i128;
    if angle >= 0 {
        (angle % turn) as i64
    } else {
        // -(angle + 1) is not negative and cannot overflow.
        let below: i128 = (-(angle + 1)) % turn;
        proof {
            let a = angle as int;
            let t = turn as int;
            let q = (-(a + 1)) / t;
            lemma_fundamental_div_mod(-(a + 1), t);
            lemma_mod_bound(-(a + 1), t);
            assert(a == (-q - 1) * t + (t - 1 - below)) by (nonlinear_arith)
                requires
                    -(a + 1) == t * q + below,
            ;
            lemma_fundamental_div_mod_converse(a, t, -q - 1, t - 1 - below);
        }
        (turn - 1 - below) as i64
    }
}

/// Divides and rounds to the nearest integer, a half away from zero.
pub fn round_div_i128(numerator: i128, divisor: i64) -> (result: i128)
    requires
        divisor > 0,
        numerator > i128::MIN,
    ensures
        result == round_div(numerator as int, divisor as int),
        magnitude(result as int) <= magnitude(numerator as int),
{
    let wide: i128 = divisor as i128;
    let size: i128 = if numerator >= 0 {
        numerator
    } else {
        -numerator
    };
    let quotient: i128 = size / wide;
    let rest: i128 = size % wide;
    proof {
        lemma_fundamental_div_mod(size as int, wide as int);
        lemma_mod_bound(size as int, wide as int);
        lemma_div_pos_is_pos(size as int, wide as int);
        assert(wide * quotient >= quotient) by (nonlinear_arith)
            requires
                wide >= 1,
                quotient >= 0,
        ;
        // Rounding up needs a remainder, so the quotient is then below `size`.
        assert(rest >= wide - rest ==> quotient + 1 <= size) by (nonlinear_arith)
            requires
                size == wide * quotient + rest,
                0 <= rest < wide,
                quotient >= 0,
        ;
    }
    let rounded: i128 = if rest >= wide - rest {
        quotient + 1
    } else {
        quotient
    };
    if numerator >= 0 {
        rounded
    } else {
        -rounded
    }
}

/// Rounds a length to the nearest multiple of `step`, a half away from zero.
pub fn round_to_step(position: i64, step: i64) -> (result: i64)
    requires
        step > 0,
    ensures
        result == saturate(snap(position as int, step as int)),
{
    let quotient: i128 = round_div_i128(position as i128, step);
    proof {
        if position >= 0 {
            lemma_half_up_within_half_step(position as int, step as int);
        } else {
            lemma_half_up_within_half_step(-(position as int), step as int);
            lemma_snap_mirror(-(position as int), step as int);
        }
        lemma_snap_within_half_step(position as int, step as int);
    }
    let exact: i128 = quotient * (step as i128);
    saturate_to_i64(exact)
}

/// Where a value stands that has gone the share `blend` of the way from
/// `current` to `desired`, `blend` being a number of parts of `WHOLE`. A
/// share of more than the whole counts as the whole.
pub open spec fn blended(current: int, desired: int, blend: int) -> int {
    current + round_div((desired - current) * clamp(blend, 0, WHOLE as int), WHOLE as int)
}

/// A share of a distance is no longer than the distance and points the same
/// way; no share is nothing, and the whole share is the distance.
pub proof fn lemma_share(distance: int, blend: int)
    requires
        0 <= blend <= WHOLE,
    ensures
        distance >= 0 ==> 0 <= round_div(distance * blend, WHOLE as int) <= distance,
        distance <= 0 ==> distance <= round_div(distance * blend, WHOLE as int) <= 0,
        round_div(distance * 0, WHOLE as int) == 0,
        round_div(distance * WHOLE, WHOLE as int) == distance,
{
    let whole = WHOLE as int;
    lemma_fundamental_div_mod_converse(0, whole, 0, 0);
    if distance >= 0 {
        lemma_fundamental_div_mod_converse(distance * whole, whole, distance, 0);
        lemma_share_of_length(distance, blend);
    } else {
        assert((-distance) * whole == -(distance * whole)) by (nonlinear_arith);
        assert((-distance) * blend == -(distance * blend)) by (nonlinear_arith);
        assert(distance * blend <= 0) by (nonlinear_arith)
            requires
                distance <= 0,
                blend >= 0,
        ;
        lemma_fundamental_div_mod_converse((-distance) * whole, whole, -distance, 0);
        lemma_share_of_length(-distance, blend);
    }
}

proof fn lemma_share_of_length(length: int, blend: int)
    requires
        length >= 0,
        0 <= blend <= WHOLE,
    ensures
        0 <= half_up(length * blend, WHOLE as int) <= length,
{
    let whole = WHOLE as int;
    let part = length * blend;
    assert(0 <= part <= length * whole) by (nonlinear_arith)
        requires
            part == length * blend,
            length >= 0,
            0 <= blend <= whole,
    ;
    lemma_fundamental_div_mod(part, whole);
    lemma_mod_bound(part, whole);
    lemma_div_pos_is_pos(part, whole);
    let quotient = part / whole;
    assert(quotient < length || part % whole == 0) by (nonlinear_arith)
        requires
            part == whole * quotient + part % whole,
            0 <= part % whole < whole,
            part <= length * whole,
            whole > 0,
    ;
    assert(quotient <= length) by (nonlinear_arith)
        requires
            part == whole * quotient + part % whole,
            0 <= part % whole,
            part <= length * whole,
            whole > 0,
    ;
}

/// A value that has gone a share of the way from `current` to `desired` lies
/// between the two: it has not gone back, and not past the end. With no
/// share it is where it was, with the whole share it is at the end.
pub proof fn lemma_blended_lies_between(current: int, desired: int, blend: int)
    ensures
        current <= desired ==> current <= blended(current, desired, blend) <= desired,
        desired <= current ==> desired <= blended(current, desired, blend) <= current,
        blend <= 0 ==> blended(current, desired, blend) == current,
        blend >= WHOLE ==> blended(current, desired, blend) == desired,
{
    lemma_share(desired - current, clamp(blend, 0, WHOLE as int));
}

/// A point or a displacement, in length units.
#[derive(Clone, Copy, Debug, PartialEq, Eq, Structural)]
pub struct Vec3 {
    pub x: i64,
    pub y: i64,
    pub z: i64,
}

impl Vec3 {
    /// The origin.
    pub open spec fn spec_zero() -> Vec3 {
        Vec3 { x: 0, y: 0, z: 0 }
    }

    /// `self + direction * count`, each component stopping at the limits.
    pub open spec fn spec_offset(self, direction: Vec3, count: int) -> Vec3 {
        Vec3 {
            x: saturate(self.x + direction.x * count) as i64,
            y: saturate(self.y + direction.y * count) as i64,
            z: saturate(self.z + direction.z * count) as i64,
        }
    }

    /// Each component at the nearest multiple of `step`.
    pub open spec fn spec_round_to_step(self, step: int) -> Vec3 {
        Vec3 {
            x: saturate(snap(self.x as int, step)) as i64,
            y: saturate(snap(self.y as int, step)) as i64,
            z: saturate(snap(self.z as int, step)) as i64,
        }
    }

    /// The point that has gone the share `blend` of the way from this one to
    /// `desired`, along each axis.
    pub open spec fn spec_lerp(self, desired: Vec3, blend: int) -> Vec3 {
        Vec3 {
            x: blended(self.x as int, desired.x as int, blend) as i64,
            y: blended(self.y as int, desired.y as int, blend) as i64,
            z: blended(self.z as int, desired.z as int, blend) as i64,
        }
    }

    /// The square of the distance between two points.
    pub open spec fn distance_squared(self, other: Vec3) -> int {
        (self.x - other.x) * (self.x - other.x) + (self.y - other.y) * (self.y - other.y) + (self.z
            - other.z) * (self.z - other.z)
    }

    /// The vector with the given components.
    pub fn new(x: i64, y: i64, z: i64) -> (result: Vec3)
        ensures
            result == (Vec3 { x, y, z }),
    {
        Vec3 { x, y, z }
    }

    /// The origin.
    #[verifier::when_used_as_spec(spec_zero)]
    pub fn zero() -> (result: Vec3)
        ensures
            result == Vec3::spec_zero(),
    {
        Vec3 { x: 0, y: 0, z: 0 }
    }

    /// Moves `count` times along `direction`.
    pub fn offset(self, direction: Vec3, count: i64) -> (result: Vec3)
        ensures
            result == self.spec_offset(direction, count as int),
    {
        Vec3 {
            x: offset_component(self.x, direction.x, count),
            y: offset_component(self.y, direction.y, count),
            z: offset_component(self.z, direction.z, count),
        }
    }

    /// Goes the share `blend` of the way to `desired`, `blend` being a number
    /// of parts of `WHOLE`. The point that comes out lies between the two.
    pub fn lerp(self, desired: Vec3, blend: u32) -> (result: Vec3)
        ensures
            result == self.spec_lerp(desired, blend as int),
    {
        Vec3 {
            x: blend_component(self.x, desired.x, blend),
            y: blend_component(self.y, desired.y, blend),
            z: blend_component(self.z, desired.z, blend),
        }
    }

    /// Quantizes a position to the grid: each component goes to the nearest
    /// multiple of `step`, a half away from zero.
    pub fn round_to_step(self, step: i64) -> (result: Vec3)
        requires
            step > 0,
        ensures
            result == self.spec_round_to_step(step as int),
    {
        Vec3 {
            x: round_to_step(self.x, step),
            y: round_to_step(self.y, step),
            z: round_to_step(self.z, step),
        }
    }

    /// Quantizing a quantized position changes nothing.
    pub proof fn lemma_round_to_step_idempotent(self, step: int)
        requires
            step > 0,
        ensures
            self.spec_round_to_step(step).spec_round_to_step(step) == self.spec_round_to_step(step),
    {
        lemma_saturated_snap(self.x as int, step);
        lemma_saturated_snap(self.y as int, step);
        lemma_saturated_snap(self.z as int, step);
    }

    /// A quantized position lies within half a step of the position along
    /// each axis, and so within `step * sqrt(3) / 2` of it in space.
    pub proof fn lemma_round_to_step_is_near(self, step: int)
        requires
            step > 0,
        ensures
            2 * magnitude(self.spec_round_to_step(step).x - self.x) <= step,
            2 * magnitude(self.spec_round_to_step(step).y - self.y) <= step,
            2 * magnitude(self.spec_round_to_step(step).z - self.z) <= step,
            4 * self.spec_round_to_step(step).distance_squared(self) <= 3 * step * step,
    {
        lemma_saturated_snap(self.x as int, step);
        lemma_saturated_snap(self.y as int, step);
        lemma_saturated_snap(self.z as int, step);
        let snapped = self.spec_round_to_step(step);
        lemma_square_of_half_step(snapped.x - self.x, step);
        lemma_square_of_half_step(snapped.y - self.y, step);
        lemma_square_of_half_step(snapped.z - self.z, step);
        assert(3 * step * step == step * step + step * step + step * step) by (nonlinear_arith);
    }
}

proof fn lemma_square_of_half_step(offset: int, step: int)
    requires
        2 * magnitude(offset) <= step,
    ensures
        4 * (offset * offset) <= step * step,
{
    assert(4 * (offset * offset) <= step * step) by (nonlinear_arith)
        requires
            -step <= 2 * offset <= step,
    ;
}

fn blend_component(current: i64, desired: i64, blend: u32) -> (result: i64)
    ensures
        result == blended(current as int, desired as int, blend as int),
{
    let share: u32 = if blend > WHOLE {
        WHOLE
    } else {
        blend
    };
    let distance: i128 = desired as i128 - current as i128;
    assert(-0x1_0000_0000_0000_0000 * 0x10_0000 <= distance * share <= 0x1_0000_0000_0000_0000
        * 0x10_0000) by (nonlinear_arith)
        requires
            -0x1_0000_0000_0000_0000 <= distance <= 0x1_0000_0000_0000_0000,
            0 <= share <= 0x10_0000,
    ;
    let step: i128 = round_div_i128(distance * (share as i128), WHOLE as i64);
    proof {
        lemma_share(distance as int, share as int);
    }
    (current as i128 + step) as i64
}

fn offset_component(start: i64, direction: i64, count: i64) -> (result: i64)
    ensures
        result == saturate(start + direction * count),
{
    assert(-0x4000_0000_0000_0000_0000_0000_0000_0000 <= direction * count
        <= 0x4000_0000_0000_0000_0000_0000_0000_0000) by (nonlinear_arith)
        requires
            -0x8000_0000_0000_0000 <= direction <= 0x8000_0000_0000_0000,
            -0x8000_0000_0000_0000 <= count <= 0x8000_0000_0000_0000,
    ;
    let wide: i128 = start as i128 + (direction as i128) * (count as i128);
    saturate_to_i64(wide)
}

/// Where a placed or previewed piece stands: its position, and its rotation
/// about the vertical axis as an angle in `[0, FULL_TURN)`.
#[derive(Clone, Copy, Debug, PartialEq, Eq, Structural)]
pub struct Transform {
    pub translation: Vec3,
    pub rotation: i64,
}

impl Transform {
    /// At the origin, unrotated.
    pub open spec fn spec_identity() -> Transform {
        Transform { translation: Vec3::spec_zero(), rotation: 0 }
    }

    /// At the origin, unrotated.
    #[verifier::when_used_as_spec(spec_identity)]
    pub fn identity() -> (result: Transform)
        ensures
            result == Transform::spec_identity(),
    {
        Transform { translation: Vec3::zero(), rotation: 0 }
    }
}

/// What the library reads of the camera's pose: its position, the directions
/// in which it looks and in which its right-hand side points (each of length
/// `LENGTH_UNIT`), and its heading and elevation as angles.
#[derive(Clone, Copy, Debug, PartialEq, Eq, Structural)]
pub struct CameraTransform {
    pub translation: Vec3,
    pub forward: Vec3,
    pub right: Vec3,
    pub yaw: i64,
    pub pitch: i64,
}

} // verus!
