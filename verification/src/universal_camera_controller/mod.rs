//! The camera controller: one of a closed set of navigation behaviors is
//! active at a time, takes each frame's input, and says where to draw the
//! camera. The behaviors can be swapped while the program runs.

pub mod flying_camera;
pub mod plugin;
pub mod ray_casting;
pub mod settings;
pub mod spherical_camera;

use crate::events::Events;
use crate::input::{KeyCode, KeyboardInput, MouseMotion, Time};
use crate::math::{clamp, wrap_angle, CameraTransform, Vec3};
use crate::settings::GameSettings;
use crate::state::NextState;
use flying_camera::PITCH_LIMIT;
pub use flying_camera::FlyingCamera;
pub use plugin::UniCamPlugin;
pub use ray_casting::{uni_cam_ray_cast, Ray3d, RayCaster};
pub use settings::UniCamSettings;
pub use spherical_camera::SphericalCamera;
use vstd::prelude::*;

verus! {

/// Whether the camera controller runs.
#[derive(Clone, Copy, Debug, PartialEq, Eq, Hash, Structural)]
pub enum UniCamState {
    Disabled,
    Enabled,
}

impl Default for UniCamState {
    fn default() -> (state: Self)
        ensures
            state == UniCamState::Enabled,
    {
        UniCamState::Enabled
    }
}

/// A request to switch the camera controller on or off.
#[derive(Clone, Copy, Debug, PartialEq, Eq, Structural)]
pub struct UniCamChangeStateEvent(pub UniCamState);

/// What the behaviors read in a frame: the time it took, the movement and
/// sensitivity settings, the pointer's travel and the keys that are down.
pub struct Bridge {
    pub time: Time,
    pub settings: UniCamSettings,
    pub evr_mouse_movement: Vec<MouseMotion>,
    pub keys: KeyboardInput,
    pub game_settings: GameSettings,
}

/// The pose that a behavior wants the camera to take.
#[derive(Clone, Copy, Debug, PartialEq, Eq, Structural)]
pub enum TargetPose {
    /// At `position`, turned by `yaw` about the vertical axis and then by
    /// `pitch` about its own right-hand axis.
    FreeFly { position: Vec3, yaw: i64, pitch: i64 },
    /// On the sphere of `radius` round the origin of the world, at the polar
    /// angle `theta`, measured from the vertical, and the azimuth `phi`,
    /// looking at the origin.
    Orbit { radius: i64, theta: i64, phi: i64 },
}

/// How fast the camera's position closes in on the desired one, per second,
/// whichever behavior is active.
pub const POSITION_RATE: u32 = 20;

/// How fast the camera's orientation closes in on the desired one, per
/// second, whichever behavior is active.
pub const ROTATION_RATE: u32 = 30;

/// Where to draw the camera, and how fast: in a frame of `t` seconds the
/// position goes the share `1 - exp(-position_rate * t)` of the way to the
/// pose, the orientation the share `1 - exp(-rotation_rate * t)`.
#[derive(Clone, Copy, Debug, PartialEq, Eq, Structural)]
pub struct CameraTarget {
    pub pose: TargetPose,
    pub position_rate: u32,
    pub rotation_rate: u32,
}

/// The navigation behaviors, each with its own state.
#[derive(Clone, Copy, Debug, PartialEq, Eq, Structural)]
pub enum CameraMode {
    FreeFly(FlyingCamera),
    Orbit(SphericalCamera),
}

/// Holds the behavior that is active.
#[derive(Clone, Copy, Debug, PartialEq, Eq, Structural)]
pub struct UniCamController {
    mode: CameraMode,
}

impl View for UniCamController {
    type V = CameraMode;

    /// The active behavior.
    closed spec fn view(&self) -> CameraMode {
        self.mode
    }
}

impl UniCamController {
    /// Whether `after` is the behavior `before` one frame later.
    pub open spec fn updates_to(
        before: CameraMode,
        after: CameraMode,
        cam: CameraTransform,
        bridge: Bridge,
    ) -> bool {
        match (before, after) {
            (CameraMode::FreeFly(flying), CameraMode::FreeFly(flown)) => flying.updates_to(
                flown,
                cam,
                bridge,
            ),
            (CameraMode::Orbit(orbiting), CameraMode::Orbit(orbited)) => orbiting.updates_to(
                orbited,
                bridge,
            ),
            _ => false,
        }
    }

    /// The pose that a behavior draws the camera towards.
    pub open spec fn target(mode: CameraMode) -> CameraTarget {
        match mode {
            CameraMode::FreeFly(flying) => flying.target(),
            CameraMode::Orbit(orbiting) => orbiting.target(),
        }
    }

    /// The active behavior.
    pub fn mode(&self) -> (mode: CameraMode)
        ensures
            mode == self@,
    {
        self.mode
    }

    /// Hands the frame's input to the active behavior, whichever it is.
    pub fn update(&mut self, cam_transform: &CameraTransform, bridge: &Bridge) -> (target:
        CameraTarget)
        ensures
            Self::updates_to(old(self)@, final(self)@, *cam_transform, *bridge),
            target == Self::target(final(self)@),
    {
        match self.mode {
            CameraMode::FreeFly(flying) => {
                let mut flying = flying;
                let target = flying.update(cam_transform, bridge);
                self.mode = CameraMode::FreeFly(flying);
                target
            },
            CameraMode::Orbit(orbiting) => {
                let mut orbiting = orbiting;
                let target = orbiting.update(bridge);
                self.mode = CameraMode::Orbit(orbiting);
                target
            },
        }
    }
}

impl From<FlyingCamera> for UniCamController {
    fn from(camera: FlyingCamera) -> (controller: Self) {
        UniCamController { mode: CameraMode::FreeFly(camera) }
    }
}

impl vstd::std_specs::convert::FromSpecImpl<FlyingCamera> for UniCamController {
    open spec fn obeys_from_spec() -> bool {
        true
    }

    open spec fn from_spec(camera: FlyingCamera) -> Self {
        UniCamController::holding(CameraMode::FreeFly(camera))
    }
}

impl From<SphericalCamera> for UniCamController {
    fn from(camera: SphericalCamera) -> (controller: Self) {
        UniCamController { mode: CameraMode::Orbit(camera) }
    }
}

impl vstd::std_specs::convert::FromSpecImpl<SphericalCamera> for UniCamController {
    open spec fn obeys_from_spec() -> bool {
        true
    }

    open spec fn from_spec(camera: SphericalCamera) -> Self {
        UniCamController::holding(CameraMode::Orbit(camera))
    }
}

impl UniCamController {
    /// The controller whose active behavior is `mode`.
    pub closed spec fn holding(mode: CameraMode) -> UniCamController {
        UniCamController { mode }
    }

    /// A controller is what it holds.
    pub proof fn lemma_holding(mode: CameraMode)
        ensures
            UniCamController::holding(mode)@ == mode,
    {
    }
}

/// The camera: its pose, and the controller that steers it.
#[derive(Clone, Copy, Debug, PartialEq, Eq, Structural)]
pub struct Camera {
    pub transform: CameraTransform,
    pub controller: UniCamController,
}

impl Camera {
    /// Draws the camera's position the share `blend` of the way to
    /// `desired`, `blend` being a number of parts of `WHOLE`. The camera
    /// neither goes back nor past `desired`. Its orientation and its
    /// controller are not touched.
    pub fn approach(&mut self, desired: Vec3, blend: u32)
        ensures
            final(self).transform.translation == old(self).transform.translation.spec_lerp(
                desired,
                blend as int,
            ),
            final(self).transform.forward == old(self).transform.forward,
            final(self).transform.right == old(self).transform.right,
            final(self).transform.yaw == old(self).transform.yaw,
            final(self).transform.pitch == old(self).transform.pitch,
            final(self).controller == old(self).controller,
    {
        self.transform.translation = self.transform.translation.lerp(desired, blend);
    }
}

/// The behavior that the keys pressed in this frame select: `F3` the orbiting
/// one, else `F1` the free-flying one, each as new; none where neither key
/// went down.
pub open spec fn selected_mode(keys: KeyboardInput) -> Option<CameraMode> {
    if keys.is_just_pressed(KeyCode::F3) {
        Some(CameraMode::Orbit(SphericalCamera::fresh()))
    } else if keys.is_just_pressed(KeyCode::F1) {
        Some(CameraMode::FreeFly(FlyingCamera::fresh()))
    } else {
        None
    }
}

/// A swap to free flight leaves the camera where it is: the new behavior
/// takes the camera's pose for its own, so that in a frame in which no
/// movement key is held and the pointer rests, the pose that it draws the
/// camera towards is the pose that the camera has, with the heading within a
/// full turn and the elevation within a right angle.
pub proof fn lemma_swap_adopts_pose(after: CameraMode, cam: CameraTransform, bridge: Bridge)
    requires
        UniCamController::updates_to(
            CameraMode::FreeFly(FlyingCamera::fresh()),
            after,
            cam,
            bridge,
        ),
        bridge.keys.pressed@.len() == 0,
        bridge.evr_mouse_movement@.len() == 0,
    ensures
        UniCamController::target(after).pose == (TargetPose::FreeFly {
            position: cam.translation,
            yaw: wrap_angle(cam.yaw as int) as i64,
            pitch: clamp(cam.pitch as int, -PITCH_LIMIT, PITCH_LIMIT as int) as i64,
        }),
        0 <= cam.yaw < crate::math::FULL_TURN && -PITCH_LIMIT <= cam.pitch <= PITCH_LIMIT
            ==> UniCamController::target(after).pose == (TargetPose::FreeFly {
            position: cam.translation,
            yaw: cam.yaw,
            pitch: cam.pitch,
        }),
{
    FlyingCamera::lemma_fresh_is_fresh();
    match after {
        CameraMode::FreeFly(flown) => {
            FlyingCamera::fresh().lemma_fresh_behavior_adopts_pose(flown, cam, bridge);
        },
        CameraMode::Orbit(_) => {},
    }
}

/// Takes up the requests to switch the controller on or off: the last one
/// wins, and waits in `controller_state` for the next tick.
pub fn uni_cam_watchdog(
    events: &mut Events<UniCamChangeStateEvent>,
    controller_state: &mut NextState<UniCamState>,
)
    ensures
        final(events)@.len() == 0,
        *final(controller_state) == if old(events)@.len() == 0 {
            *old(controller_state)
        } else {
            NextState::Pending(old(events)@.last().0)
        },
{
    let requests = events.drain();
    let mut index: usize = 0;
    while index < requests.len()
        invariant
            index <= requests.len(),
            *controller_state == if index == 0 {
                *old(controller_state)
            } else {
                NextState::Pending(requests@[index - 1].0)
            },
        decreases requests.len() - index,
    {
        controller_state.set(requests[index].0);
        index += 1;
    }
}

/// Lets the active behavior take the frame's input.
pub fn uni_cam_controller(camera: &mut Camera, bridge: &Bridge) -> (target: CameraTarget)
    ensures
        final(camera).transform == old(camera).transform,
        UniCamController::updates_to(
            old(camera).controller@,
            final(camera).controller@,
            old(camera).transform,
            *bridge,
        ),
        target == UniCamController::target(final(camera).controller@),
{
    let transform = camera.transform;
    camera.controller.update(&transform, bridge)
}

/// Swaps the behavior when its key goes down. The new behavior starts with
/// no memory of the old one; the camera's pose is not touched.
pub fn change_cam_mode(camera: &mut Camera, keys: &KeyboardInput)
    ensures
        final(camera).transform == old(camera).transform,
        final(camera).controller@ == match selected_mode(*keys) {
            Some(mode) => mode,
            None => old(camera).controller@,
        },
{
    if keys.just_pressed(KeyCode::F1) {
        camera.controller = UniCamController::from(FlyingCamera::default());
    }
    if keys.just_pressed(KeyCode::F3) {
        camera.controller = UniCamController::from(SphericalCamera::default());
    }
}

} // verus!
