use super::{Bridge, CameraTarget, TargetPose, POSITION_RATE, ROTATION_RATE};
use crate::input::{accumulate_motion, total_delta_x, total_delta_y, KeyCode, KeyboardInput};
use crate::math::{
    clamp, clamp_to_i64, round_div, round_div_i128, saturate, saturate_to_i64, wrap_angle,
    wrap_to_turn, CameraTransform, Vec3, FULL_TURN, LENGTH_UNIT, SECOND,
};
use crate::settings::KeyboardBindings;
use vstd::arithmetic::div_mod::lemma_small_mod;
use vstd::prelude::*;

verus! {

/// The steepest that the free-flying camera looks up or down: a right angle.
pub const PITCH_LIMIT: i64 = 90_000_000_000;

/// The distance covered in `delta_micros` microseconds at `speed` length
/// units a second.
pub open spec fn travel(speed: u32, delta_micros: u32) -> int {
    (speed * delta_micros) / (SECOND as int)
}

/// The component of a step of length `travel` along a direction of length
/// `LENGTH_UNIT` whose component is `direction`.
pub open spec fn stride(direction: int, travel: int) -> int {
    round_div(direction * travel, LENGTH_UNIT as int)
}

/// `1` where only the key for the positive sense is held, `-1` where only the
/// key for the negative sense is, `0` where both or neither are.
pub open spec fn axis(positive: bool, negative: bool) -> int {
    (if positive {
        1int
    } else {
        0int
    }) - (if negative {
        1int
    } else {
        0int
    })
}

/// `step` taken in the sense that `sense` gives: forwards where it is
/// positive, backwards where it is negative, not at all where it is zero.
pub open spec fn directed(sense: int, step: int) -> int {
    if sense > 0 {
        step
    } else if sense < 0 {
        -step
    } else {
        0
    }
}

/// Where the desired position goes from `start` in one frame: along the
/// camera's line of sight for the forward and backward keys, along its
/// right-hand side for the right and left keys, and straight up and down for
/// the jump and crouch keys.
pub open spec fn moved_position(
    start: Vec3,
    cam: CameraTransform,
    travel: int,
    keys: KeyboardInput,
    bindings: KeyboardBindings,
) -> Vec3 {
    let ahead = axis(keys.is_pressed(bindings.forward), keys.is_pressed(bindings.backward));
    let aside = axis(keys.is_pressed(bindings.right), keys.is_pressed(bindings.left));
    let above = axis(keys.is_pressed(bindings.jump), keys.is_pressed(bindings.crouch));
    Vec3 {
        x: saturate(
            start.x + directed(ahead, stride(cam.forward.x as int, travel)) + directed(
                aside,
                stride(cam.right.x as int, travel),
            ),
        ) as i64,
        y: saturate(
            start.y + directed(ahead, stride(cam.forward.y as int, travel)) + directed(
                aside,
                stride(cam.right.y as int, travel),
            ) + directed(above, travel),
        ) as i64,
        z: saturate(
            start.z + directed(ahead, stride(cam.forward.z as int, travel)) + directed(
                aside,
                stride(cam.right.z as int, travel),
            ),
        ) as i64,
    }
}

/// The free-flying behavior: a desired position that the movement keys push
/// around, and a heading and an elevation that the pointer turns. A new
/// behavior has neither: it takes the position over from the camera when it
/// first moves, and heading and elevation when it first turns. From then on
/// it goes by its own, whatever values they reach.
#[derive(Clone, Copy, Debug, PartialEq, Eq, Structural)]
pub struct FlyingCamera {
    desired_position: Vec3,
    pitch: i64,
    yaw: i64,
    position_seeded: bool,
    view_seeded: bool,
}

impl FlyingCamera {
    /// The position that the camera is drawn towards.
    pub closed spec fn spec_desired_position(&self) -> Vec3 {
        self.desired_position
    }

    /// The elevation.
    pub closed spec fn spec_pitch(&self) -> i64 {
        self.pitch
    }

    /// The heading.
    pub closed spec fn spec_yaw(&self) -> i64 {
        self.yaw
    }

    /// Whether the behavior has a desired position of its own.
    pub closed spec fn spec_has_position(&self) -> bool {
        self.position_seeded
    }

    /// Whether the behavior has a heading and an elevation of its own.
    pub closed spec fn spec_has_view(&self) -> bool {
        self.view_seeded
    }

    /// The heading is kept within a full turn, the elevation within a right
    /// angle up and down.
    #[verifier::type_invariant]
    closed spec fn within_limits(self) -> bool {
        &&& 0 <= self.yaw < FULL_TURN
        &&& -PITCH_LIMIT <= self.pitch <= PITCH_LIMIT
    }

    /// The position that the camera is drawn towards.
    #[verifier::when_used_as_spec(spec_desired_position)]
    pub fn desired_position(&self) -> (position: Vec3)
        ensures
            position == self.desired_position(),
    {
        self.desired_position
    }

    /// The elevation: positive looks up. It never passes a right angle.
    #[verifier::when_used_as_spec(spec_pitch)]
    pub fn pitch(&self) -> (pitch: i64)
        ensures
            pitch == self.pitch(),
            -PITCH_LIMIT <= pitch <= PITCH_LIMIT,
    {
        proof {
            use_type_invariant(self);
        }
        self.pitch
    }

    /// The heading, within a full turn.
    #[verifier::when_used_as_spec(spec_yaw)]
    pub fn yaw(&self) -> (yaw: i64)
        ensures
            yaw == self.yaw(),
            0 <= yaw < FULL_TURN,
    {
        proof {
            use_type_invariant(self);
        }
        self.yaw
    }

    /// Whether the behavior has a desired position of its own.
    #[verifier::when_used_as_spec(spec_has_position)]
    pub fn has_position(&self) -> (seeded: bool)
        ensures
            seeded == self.has_position(),
    {
        self.position_seeded
    }

    /// Whether the behavior has a heading and an elevation of its own.
    #[verifier::when_used_as_spec(spec_has_view)]
    pub fn has_view(&self) -> (seeded: bool)
        ensures
            seeded == self.has_view(),
    {
        self.view_seeded
    }

    /// The behavior as it is made: nothing of its own.
    pub closed spec fn fresh() -> FlyingCamera {
        FlyingCamera {
            desired_position: Vec3::spec_zero(),
            pitch: 0,
            yaw: 0,
            position_seeded: false,
            view_seeded: false,
        }
    }

    /// A behavior as it is made remembers nothing.
    pub proof fn lemma_fresh_is_fresh()
        ensures
            FlyingCamera::fresh().is_fresh(),
    {
    }

    /// A behavior that remembers nothing: it has no position and no view of
    /// its own.
    pub open spec fn is_fresh(&self) -> bool {
        &&& !self.has_position()
        &&& !self.has_view()
        &&& self.desired_position() == Vec3::spec_zero()
        &&& self.pitch() == 0
        &&& self.yaw() == 0
    }

    /// The position from which a frame's movement starts: the behavior's
    /// own, or the camera's where it has none.
    pub open spec fn starting_position(&self, cam: CameraTransform) -> Vec3 {
        if self.has_position() {
            self.desired_position()
        } else {
            cam.translation
        }
    }

    /// The heading from which a frame's turn starts: the behavior's own, or
    /// the camera's where it has none.
    pub open spec fn starting_yaw(&self, cam: CameraTransform) -> int {
        if self.has_view() {
            self.yaw() as int
        } else {
            cam.yaw as int
        }
    }

    /// The elevation from which a frame's turn starts: the behavior's own,
    /// or the camera's where it has none.
    pub open spec fn starting_pitch(&self, cam: CameraTransform) -> int {
        if self.has_view() {
            self.pitch() as int
        } else {
            cam.pitch as int
        }
    }

    /// Whether `after` has the desired position that a frame's held keys
    /// give this behavior. It is the behavior's own from then on.
    pub open spec fn moves_to(
        &self,
        after: FlyingCamera,
        cam: CameraTransform,
        bridge: Bridge,
    ) -> bool {
        &&& after.has_position()
        &&& after.desired_position() == moved_position(
            self.starting_position(cam),
            cam,
            travel(bridge.settings.movement_speed, bridge.time.delta_micros),
            bridge.keys,
            bridge.game_settings.keyboard,
        )
    }

    /// Whether `after` has the heading and the elevation that a frame's
    /// pointer travel gives this behavior: the heading goes round, the
    /// elevation stops at a right angle up and down. They are the behavior's
    /// own from then on.
    pub open spec fn turns_to(
        &self,
        after: FlyingCamera,
        cam: CameraTransform,
        bridge: Bridge,
    ) -> bool {
        &&& after.has_view()
        &&& after.yaw() == wrap_angle(
            self.starting_yaw(cam) - bridge.game_settings.mouse.sensitivity_horizontal
                * total_delta_x(bridge.evr_mouse_movement@),
        )
        &&& after.pitch() == clamp(
            self.starting_pitch(cam) - bridge.game_settings.mouse.sensitivity_vertical
                * total_delta_y(bridge.evr_mouse_movement@),
            -PITCH_LIMIT,
            PITCH_LIMIT as int,
        )
    }

    /// Whether `after` is this behavior one frame later.
    pub open spec fn updates_to(
        &self,
        after: FlyingCamera,
        cam: CameraTransform,
        bridge: Bridge,
    ) -> bool {
        self.moves_to(after, cam, bridge) && self.turns_to(after, cam, bridge)
    }

    /// The pose that this behavior draws the camera towards.
    pub open spec fn target(&self) -> CameraTarget {
        CameraTarget {
            pose: TargetPose::FreeFly {
                position: self.desired_position(),
                yaw: self.yaw(),
                pitch: self.pitch(),
            },
            position_rate: POSITION_RATE,
            rotation_rate: ROTATION_RATE,
        }
    }

    /// Takes one frame's input: the keys move the desired position, the
    /// pointer turns the view. Returns the pose to draw the camera towards.
    pub fn update(&mut self, cam_transform: &CameraTransform, bridge: &Bridge) -> (target:
        CameraTarget)
        ensures
            old(self).updates_to(*final(self), *cam_transform, *bridge),
            -PITCH_LIMIT <= final(self).pitch() <= PITCH_LIMIT,
            0 <= final(self).yaw() < FULL_TURN,
            target == final(self).target(),
    {
        self.update_position(cam_transform, bridge);
        self.update_view(cam_transform, bridge);
        CameraTarget {
            pose: TargetPose::FreeFly {
                position: self.desired_position,
                yaw: self.yaw,
                pitch: self.pitch,
            },
            position_rate: POSITION_RATE,
            rotation_rate: ROTATION_RATE,
        }
    }

    /// Moves the desired position by what the held movement keys ask for. A
    /// behavior without a position of its own starts from the camera's.
    /// Heading and elevation stay.
    pub fn update_position(&mut self, cam_transform: &CameraTransform, bridge: &Bridge)
        ensures
            old(self).moves_to(*final(self), *cam_transform, *bridge),
            final(self).yaw() == old(self).yaw(),
            final(self).pitch() == old(self).pitch(),
            final(self).has_view() == old(self).has_view(),
    {
        proof {
            use_type_invariant(&*self);
        }
        let speed: u64 = bridge.settings.movement_speed as u64;
        let micros: u64 = bridge.time.delta_micros as u64;
        assert(speed * micros <= 0xFFFF_FFFF * 0xFFFF_FFFF) by (nonlinear_arith)
            requires
                0 <= speed <= 0xFFFF_FFFF,
                0 <= micros <= 0xFFFF_FFFF,
        ;
        let delta_move: i64 = ((speed * micros) / SECOND) as i64;

        let start = if self.position_seeded {
            self.desired_position
        } else {
            cam_transform.translation
        };

        let key_codes = &bridge.game_settings.keyboard;
        let ahead: i8 = key_axis(&bridge.keys, key_codes.forward, key_codes.backward);
        let aside: i8 = key_axis(&bridge.keys, key_codes.right, key_codes.left);
        let above: i8 = key_axis(&bridge.keys, key_codes.jump, key_codes.crouch);

        self.desired_position = Vec3 {
            x: moved_component(
                start.x,
                ahead,
                cam_transform.forward.x,
                aside,
                cam_transform.right.x,
                0,
                delta_move,
            ),
            y: moved_component(
                start.y,
                ahead,
                cam_transform.forward.y,
                aside,
                cam_transform.right.y,
                above,
                delta_move,
            ),
            z: moved_component(
                start.z,
                ahead,
                cam_transform.forward.z,
                aside,
                cam_transform.right.z,
                0,
                delta_move,
            ),
        };
        self.position_seeded = true;
    }

    /// Turns the view by the pointer's travel. A behavior without a view of
    /// its own starts from the camera's. The desired position stays.
    pub fn update_view(&mut self, cam_transform: &CameraTransform, bridge: &Bridge)
        ensures
            old(self).turns_to(*final(self), *cam_transform, *bridge),
            -PITCH_LIMIT <= final(self).pitch() <= PITCH_LIMIT,
            0 <= final(self).yaw() < FULL_TURN,
            final(self).desired_position() == old(self).desired_position(),
            final(self).has_position() == old(self).has_position(),
    {
        proof {
            use_type_invariant(&*self);
        }
        let mut yaw: i128 = self.yaw as i128;
        let mut pitch: i128 = self.pitch as i128;
        if !self.view_seeded {
            yaw = cam_transform.yaw as i128;
            pitch = cam_transform.pitch as i128;
        }
        let (total_delta_x, total_delta_y) = accumulate_motion(&bridge.evr_mouse_movement);
        let turn_x: i128 = turn(bridge.game_settings.mouse.sensitivity_horizontal, total_delta_x);
        let turn_y: i128 = turn(bridge.game_settings.mouse.sensitivity_vertical, total_delta_y);

        self.yaw = wrap_to_turn(yaw - turn_x);
        self.pitch = clamp_to_i64(pitch - turn_y, -PITCH_LIMIT, PITCH_LIMIT);
        self.view_seeded = true;
    }

    /// A new behavior starts from the camera's own pose: where no movement
    /// key is held and the pointer rests, its first frame leaves the desired
    /// position at the camera's, and heading and elevation at the camera's,
    /// as far as they are within the behavior's limits.
    pub proof fn lemma_fresh_behavior_adopts_pose(
        &self,
        after: FlyingCamera,
        cam: CameraTransform,
        bridge: Bridge,
    )
        requires
            self.is_fresh(),
            self.updates_to(after, cam, bridge),
            bridge.keys.pressed@.len() == 0,
            bridge.evr_mouse_movement@.len() == 0,
        ensures
            after.desired_position() == cam.translation,
            after.yaw() == wrap_angle(cam.yaw as int),
            after.pitch() == clamp(cam.pitch as int, -PITCH_LIMIT, PITCH_LIMIT as int),
            0 <= cam.yaw < FULL_TURN ==> after.yaw() == cam.yaw,
            -PITCH_LIMIT <= cam.pitch <= PITCH_LIMIT ==> after.pitch() == cam.pitch,
    {
        assert(forall|key: KeyCode| !bridge.keys.is_pressed(key));
        if 0 <= cam.yaw < FULL_TURN {
            lemma_small_mod(cam.yaw as nat, FULL_TURN as nat);
        }
    }

    /// The desired position persists: a behavior that has one keeps it
    /// through a frame in which no movement key is held, wherever it stands
    /// and wherever the camera is.
    pub proof fn lemma_desired_position_persists(
        &self,
        after: FlyingCamera,
        cam: CameraTransform,
        bridge: Bridge,
    )
        requires
            self.has_position(),
            self.moves_to(after, cam, bridge),
            bridge.keys.pressed@.len() == 0,
        ensures
            after.desired_position() == self.desired_position(),
    {
        assert(forall|key: KeyCode| !bridge.keys.is_pressed(key));
    }
}

impl Default for FlyingCamera {
    /// A new behavior: it takes its pose over from the camera when it is
    /// first updated.
    fn default() -> (camera: Self)
        ensures
            camera == FlyingCamera::fresh(),
            camera.is_fresh(),
    {
        FlyingCamera {
            desired_position: Vec3::zero(),
            pitch: 0,
            yaw: 0,
            position_seeded: false,
            view_seeded: false,
        }
    }
}

/// What the pointer's travel turns the view by.
pub(crate) fn turn(sensitivity: u32, total: i128) -> (angle: i128)
    requires
        -0x8000_0000 * usize::MAX <= total <= 0x8000_0000 * usize::MAX,
    ensures
        angle == sensitivity * total,
        -0x7FFF_FFFF_FFFF_FFFF_0000_0000_0000_0000 <= angle
            <= 0x7FFF_FFFF_FFFF_FFFF_0000_0000_0000_0000,
{
    assert(-0x7FFF_FFFF_FFFF_FFFF_0000_0000_0000_0000 <= sensitivity * total
        <= 0x7FFF_FFFF_FFFF_FFFF_0000_0000_0000_0000) by (nonlinear_arith)
        requires
            0 <= sensitivity <= 0xFFFF_FFFF,
            -0x8000_0000 * 0xFFFF_FFFF_FFFF_FFFF <= total <= 0x8000_0000 * 0xFFFF_FFFF_FFFF_FFFF,
    ;
    (sensitivity as i128) * total
}

fn key_axis(keys: &KeyboardInput, positive: KeyCode, negative: KeyCode) -> (sense: i8)
    ensures
        sense == axis(keys.is_pressed(positive), keys.is_pressed(negative)),
{
    let mut sense: i8 = 0;
    if keys.pressed(positive) {
        sense = sense + 1;
    }
    if keys.pressed(negative) {
        sense = sense - 1;
    }
    sense
}

fn stride_of(direction: i64, delta_move: i64) -> (step: i128)
    requires
        0 <= delta_move <= 0x1_0000_0000_0000,
    ensures
        step == stride(direction as int, delta_move as int),
        -0x8000_0000_0000_0000 * 0x1_0000_0000_0000 <= step <= 0x8000_0000_0000_0000
            * 0x1_0000_0000_0000,
{
    assert(-0x8000_0000_0000_0000 * 0x1_0000_0000_0000 <= direction * delta_move
        <= 0x8000_0000_0000_0000 * 0x1_0000_0000_0000) by (nonlinear_arith)
        requires
            -0x8000_0000_0000_0000 <= direction <= 0x8000_0000_0000_0000,
            0 <= delta_move <= 0x1_0000_0000_0000,
    ;
    round_div_i128((direction as i128) * (delta_move as i128), LENGTH_UNIT)
}

fn moved_component(
    start: i64,
    ahead: i8,
    forward: i64,
    aside: i8,
    right: i64,
    above: i8,
    delta_move: i64,
) -> (moved: i64)
    requires
        0 <= delta_move <= 0x1_0000_0000_0000,
    ensures
        moved == saturate(
            start + directed(ahead as int, stride(forward as int, delta_move as int)) + directed(
                aside as int,
                stride(right as int, delta_move as int),
            ) + directed(above as int, delta_move as int),
        ),
{
    let along: i128 = stride_of(forward, delta_move);
    let across: i128 = stride_of(right, delta_move);
    let mut wide: i128 = start as i128;
    if ahead > 0 {
        wide = wide + along;
    } else if ahead < 0 {
        wide = wide - along;
    }
    if aside > 0 {
        wide = wide + across;
    } else if aside < 0 {
        wide = wide - across;
    }
    if above > 0 {
        wide = wide + delta_move as i128;
    } else if above < 0 {
        wide = wide - delta_move as i128;
    }
    saturate_to_i64(wide)
}

} // verus!
