use super::flying_camera::turn;
use super::{Bridge, CameraTarget, TargetPose, POSITION_RATE, ROTATION_RATE};
use crate::input::{accumulate_motion, total_delta_x, total_delta_y};
use crate::math::{clamp, clamp_to_i64, wrap_angle, wrap_to_turn, FULL_TURN};
use vstd::prelude::*;

verus! {

/// The nearest that the orbiting camera comes to the pole over the point it
/// looks at: ten degrees from the vertical.
pub const THETA_MIN: i64 = 10_000_000_000;

/// The farthest that the orbiting camera goes from the pole: a tenth of a
/// degree short of the horizontal.
pub const THETA_MAX: i64 = 89_900_000_000;

/// The distance at which the camera orbits: three world units.
pub const ORBIT_RADIUS: i64 = 3_000_000;

/// The orbiting behavior: the camera looks at the origin of the world from a
/// fixed distance, at a polar angle `theta`, measured from the vertical, and
/// an azimuth `phi`, both of which the pointer turns. The polar angle never
/// leaves `[THETA_MIN, THETA_MAX]`; the azimuth goes round.
#[derive(Clone, Copy, Debug, PartialEq, Eq, Structural)]
pub struct SphericalCamera {
    radius: i64,
    theta: i64,
    phi: i64,
}

impl SphericalCamera {
    /// The distance from the point that the camera looks at.
    pub closed spec fn spec_radius(&self) -> i64 {
        self.radius
    }

    /// The polar angle.
    pub closed spec fn spec_theta(&self) -> i64 {
        self.theta
    }

    /// The azimuth.
    pub closed spec fn spec_phi(&self) -> i64 {
        self.phi
    }

    /// The polar angle is kept within its two limits, the azimuth within a
    /// full turn.
    #[verifier::type_invariant]
    closed spec fn within_limits(self) -> bool {
        &&& THETA_MIN <= self.theta <= THETA_MAX
        &&& 0 <= self.phi < FULL_TURN
    }

    /// The distance from the point that the camera looks at.
    #[verifier::when_used_as_spec(spec_radius)]
    pub fn radius(&self) -> (radius: i64)
        ensures
            radius == self.radius(),
    {
        self.radius
    }

    /// The polar angle. It never leaves `[THETA_MIN, THETA_MAX]`.
    #[verifier::when_used_as_spec(spec_theta)]
    pub fn theta(&self) -> (theta: i64)
        ensures
            theta == self.theta(),
            THETA_MIN <= theta <= THETA_MAX,
    {
        proof {
            use_type_invariant(self);
        }
        self.theta
    }

    /// The azimuth, within a full turn.
    #[verifier::when_used_as_spec(spec_phi)]
    pub fn phi(&self) -> (phi: i64)
        ensures
            phi == self.phi(),
            0 <= phi < FULL_TURN,
    {
        proof {
            use_type_invariant(self);
        }
        self.phi
    }

    /// The behavior as it is made: at the orbit's radius, as near to the
    /// pole as it comes, azimuth zero.
    pub closed spec fn fresh() -> SphericalCamera {
        SphericalCamera { radius: ORBIT_RADIUS, theta: THETA_MIN, phi: 0 }
    }

    /// A behavior as it is made remembers nothing.
    pub proof fn lemma_fresh_is_fresh()
        ensures
            SphericalCamera::fresh().is_fresh(),
    {
    }

    /// A behavior that remembers nothing.
    pub open spec fn is_fresh(&self) -> bool {
        &&& self.radius() == ORBIT_RADIUS
        &&& self.theta() == THETA_MIN
        &&& self.phi() == 0
    }

    /// Whether `after` is this behavior one frame later: the pointer's travel
    /// has turned the azimuth, which goes round, and the polar angle, which
    /// stops at its two limits; the radius is as it was.
    pub open spec fn updates_to(&self, after: SphericalCamera, bridge: Bridge) -> bool {
        &&& after.phi() == wrap_angle(
            self.phi() - bridge.game_settings.mouse.sensitivity_horizontal * total_delta_x(
                bridge.evr_mouse_movement@,
            ),
        )
        &&& after.theta() == clamp(
            self.theta() + bridge.game_settings.mouse.sensitivity_vertical * total_delta_y(
                bridge.evr_mouse_movement@,
            ),
            THETA_MIN as int,
            THETA_MAX as int,
        )
        &&& after.radius() == self.radius()
    }

    /// The pose that this behavior draws the camera towards, with the same
    /// smoothing as in free flight.
    pub open spec fn target(&self) -> CameraTarget {
        CameraTarget {
            pose: TargetPose::Orbit { radius: self.radius(), theta: self.theta(), phi: self.phi() },
            position_rate: POSITION_RATE,
            rotation_rate: ROTATION_RATE,
        }
    }

    /// Takes one frame's input and returns the pose to draw the camera
    /// towards.
    pub fn update(&mut self, bridge: &Bridge) -> (target: CameraTarget)
        ensures
            old(self).updates_to(*final(self), *bridge),
            THETA_MIN <= final(self).theta() <= THETA_MAX,
            0 <= final(self).phi() < FULL_TURN,
            target == final(self).target(),
    {
        proof {
            use_type_invariant(&*self);
        }
        let (total_delta_x, total_delta_y) = accumulate_motion(&bridge.evr_mouse_movement);
        let turn_x: i128 = turn(bridge.game_settings.mouse.sensitivity_horizontal, total_delta_x);
        let turn_y: i128 = turn(bridge.game_settings.mouse.sensitivity_vertical, total_delta_y);

        self.phi = wrap_to_turn(self.phi as i128 - turn_x);
        self.theta = clamp_to_i64(self.theta as i128 + turn_y, THETA_MIN, THETA_MAX);

        CameraTarget {
            pose: TargetPose::Orbit { radius: self.radius, theta: self.theta, phi: self.phi },
            position_rate: POSITION_RATE,
            rotation_rate: ROTATION_RATE,
        }
    }
}

impl Default for SphericalCamera {
    /// A new behavior, as near to the pole as it comes.
    fn default() -> (camera: Self)
        ensures
            camera == SphericalCamera::fresh(),
            camera.is_fresh(),
    {
        SphericalCamera { radius: ORBIT_RADIUS, theta: THETA_MIN, phi: 0 }
    }
}

} // verus!
