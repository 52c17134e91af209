use super::building_assets::{
    BuildingAssets, BuildingAssetsView, BuildingCategory, PreviewBuildingHandle, SceneHandle,
};
use super::{BuildingMode, ChangeBuildingModeEvent};
use crate::events::Events;
use crate::universal_camera_controller::{UniCamChangeStateEvent, UniCamState};
use crate::window::{CursorGrabMode, CursorOptions, Window};
use vstd::prelude::*;

verus! {

/// The entry of the building menu that was clicked: the piece at `index` of
/// `category`.
#[derive(Clone, Copy, Debug, PartialEq, Eq, Structural)]
pub struct MenuChoice {
    pub category: BuildingCategory,
    pub index: usize,
}

/// The pointer while a menu is open: kept within the window, and shown.
pub open spec fn menu_cursor() -> CursorOptions {
    CursorOptions { grab_mode: CursorGrabMode::Confined, visible: true }
}

/// The pointer while the player looks around: held in place, and hidden.
pub open spec fn play_cursor() -> CursorOptions {
    CursorOptions { grab_mode: CursorGrabMode::Locked, visible: false }
}

/// `window` with the pointer set to `cursor_options`.
pub open spec fn with_cursor(window: Window, cursor_options: CursorOptions) -> Window {
    Window {
        resolution: window.resolution,
        mode: window.mode,
        present_mode: window.present_mode,
        cursor_options,
    }
}

/// The scene of the piece that `clicked` names, if the catalog has it.
pub open spec fn chosen_scene(assets: BuildingAssetsView, clicked: Option<MenuChoice>) -> Option<
    SceneHandle,
> {
    match clicked {
        Some(choice) => if choice.index < assets.group(choice.category).len() {
            Some(assets.group(choice.category)[choice.index as int].scene)
        } else {
            None
        },
        None => None,
    }
}

/// Opens the building menu: frees the pointer for it, and asks the camera
/// controller to stop.
pub fn enter_building_menu(
    window: &mut Window,
    evw_change_universal_cam: &mut Events<UniCamChangeStateEvent>,
)
    ensures
        *final(window) == with_cursor(*old(window), menu_cursor()),
        final(evw_change_universal_cam)@ == old(evw_change_universal_cam)@.push(
            UniCamChangeStateEvent(UniCamState::Disabled),
        ),
{
    window.cursor_options.grab_mode = CursorGrabMode::Confined;
    window.cursor_options.visible = true;
    evw_change_universal_cam.send(UniCamChangeStateEvent(UniCamState::Disabled));
}

/// Takes a click on the building menu: the piece that it names becomes the
/// pending selection, in place of any earlier one, and building is asked
/// for. A click that names no piece of the catalog, or no click, does
/// nothing.
pub fn building_menu(
    building_assets: &BuildingAssets,
    evw_change_build_mode: &mut Events<ChangeBuildingModeEvent>,
    preview_building_handle: &mut PreviewBuildingHandle,
    clicked: Option<MenuChoice>,
)
    ensures
        final(preview_building_handle).0 == match chosen_scene(building_assets@, clicked) {
            Some(scene) => Some(scene),
            None => old(preview_building_handle).0,
        },
        final(evw_change_build_mode)@ == match chosen_scene(building_assets@, clicked) {
            Some(scene) => old(evw_change_build_mode)@.push(
                ChangeBuildingModeEvent(BuildingMode::Building),
            ),
            None => old(evw_change_build_mode)@,
        },
{
    match clicked {
        Some(choice) => {
            match building_assets.group(choice.category).scene_at(choice.index) {
                Some(scene) => {
                    preview_building_handle.0 = Some(scene);
                    evw_change_build_mode.send(ChangeBuildingModeEvent(BuildingMode::Building));
                },
                None => {},
            }
        },
        None => {},
    }
}

/// Closes the building menu: takes the pointer back, and asks the camera
/// controller to go on.
pub fn exit_building_menu(
    window: &mut Window,
    evw_change_camera_controller_state: &mut Events<UniCamChangeStateEvent>,
)
    ensures
        *final(window) == with_cursor(*old(window), play_cursor()),
        final(evw_change_camera_controller_state)@ == old(
            evw_change_camera_controller_state,
        )@.push(UniCamChangeStateEvent(UniCamState::Enabled)),
{
    window.cursor_options.grab_mode = CursorGrabMode::Locked;
    window.cursor_options.visible = false;
    evw_change_camera_controller_state.send(UniCamChangeStateEvent(UniCamState::Enabled));
}

} // verus!
