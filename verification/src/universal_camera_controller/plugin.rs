use super::{
    change_cam_mode, selected_mode, uni_cam_controller, uni_cam_watchdog, Bridge, Camera,
    CameraMode, CameraTarget, FlyingCamera, UniCamChangeStateEvent, UniCamController,
    UniCamSettings, UniCamState,
};
use crate::events::Events;
use crate::input::{KeyboardInput, MouseMotion, Time};
use crate::math::CameraTransform;
use crate::settings::GameSettings;
use crate::state::NextState;
use vstd::prelude::*;

verus! {

/// The camera subsystem: whether the controller runs, the requests to switch
/// it on or off, how the camera moves, and the camera itself.
pub struct UniCamPlugin {
    pub state: UniCamState,
    pub next_state: NextState<UniCamState>,
    pub events: Events<UniCamChangeStateEvent>,
    pub settings: UniCamSettings,
    pub camera: Camera,
}

impl UniCamPlugin {
    /// The state in which a tick runs: the requested one where a request
    /// waits, else the one before.
    pub open spec fn entered_state(&self) -> UniCamState {
        match self.next_state {
            NextState::Pending(state) => state,
            NextState::Unchanged => self.state,
        }
    }

    /// The behavior that a tick in the enabled state updates: a newly
    /// selected one, or the one that was active.
    pub open spec fn active_mode(&self, keys: KeyboardInput) -> CameraMode {
        match selected_mode(keys) {
            Some(mode) => mode,
            None => self.camera.controller@,
        }
    }

    /// The subsystem as it starts: enabled, nothing pending, default
    /// settings, and a free-flying camera with the pose `transform`.
    pub fn build(transform: CameraTransform) -> (plugin: Self)
        ensures
            plugin.state == UniCamState::Enabled,
            plugin.next_state == NextState::<UniCamState>::Unchanged,
            plugin.events@.len() == 0,
            plugin.settings == UniCamSettings::spec_default(),
            plugin.camera.transform == transform,
            plugin.camera.controller@ matches CameraMode::FreeFly(flying) && flying.is_fresh(),
    {
        UniCamPlugin {
            state: UniCamState::default(),
            next_state: NextState::Unchanged,
            events: Events::new(),
            settings: UniCamSettings::default(),
            camera: Camera {
                transform,
                controller: UniCamController::from(FlyingCamera::default()),
            },
        }
    }

    /// One tick. A state that was requested in an earlier tick is entered;
    /// the requests made since are taken up for the next tick, the last one
    /// winning. Then, only where the controller is enabled, a behavior swap
    /// that was asked for is made and the active behavior takes the frame's
    /// input: the result is the pose to draw the camera towards. A disabled
    /// controller yields none and leaves the behavior alone. The camera's
    /// pose is never touched.
    pub fn update(
        &mut self,
        time: Time,
        mouse_motion: Vec<MouseMotion>,
        keys: KeyboardInput,
        game_settings: &GameSettings,
    ) -> (target: Option<CameraTarget>)
        ensures
            final(self).state == old(self).entered_state(),
            final(self).next_state == if old(self).events@.len() == 0 {
                NextState::<UniCamState>::Unchanged
            } else {
                NextState::Pending(old(self).events@.last().0)
            },
            final(self).events@.len() == 0,
            final(self).settings == old(self).settings,
            final(self).camera.transform == old(self).camera.transform,
            final(self).state == UniCamState::Disabled ==> {
                &&& target.is_none()
                &&& final(self).camera.controller == old(self).camera.controller
            },
            final(self).state == UniCamState::Enabled ==> {
                &&& target == Some(UniCamController::target(final(self).camera.controller@))
                &&& UniCamController::updates_to(
                    old(self).active_mode(keys),
                    final(self).camera.controller@,
                    old(self).camera.transform,
                    (Bridge {
                        time,
                        settings: old(self).settings,
                        evr_mouse_movement: mouse_motion,
                        keys,
                        game_settings: *game_settings,
                    }),
                )
            },
    {
        match self.next_state.take() {
            Some(state) => {
                self.state = state;
            },
            None => {},
        }
        uni_cam_watchdog(&mut self.events, &mut self.next_state);
        match self.state {
            UniCamState::Disabled => None,
            UniCamState::Enabled => {
                change_cam_mode(&mut self.camera, &keys);
                let bridge = Bridge {
                    time,
                    settings: self.settings,
                    evr_mouse_movement: mouse_motion,
                    keys,
                    game_settings: *game_settings,
                };
                Some(uni_cam_controller(&mut self.camera, &bridge))
            },
        }
    }
}

} // verus!
