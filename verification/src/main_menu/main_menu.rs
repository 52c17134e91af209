use super::ShowSettingsUiState;
use crate::building::building_menu::{menu_cursor, with_cursor};
use crate::events::Events;
use crate::state::NextState;
use crate::universal_camera_controller::{UniCamChangeStateEvent, UniCamState};
use crate::window::{CursorGrabMode, Window};
use vstd::prelude::*;

verus! {

/// The request to end the program.
#[derive(Clone, Copy, Debug, PartialEq, Eq, Structural)]
pub enum AppExit {
    Success,
}

/// A button of the main menu.
#[derive(Clone, Copy, Debug, PartialEq, Eq, Structural)]
pub enum MainMenuButton {
    Start,
    Settings,
    Quit,
}

/// Whether the main menu offers the settings: it does while they are not
/// open already.
pub open spec fn settings_offered(current_settings_state: ShowSettingsUiState) -> bool {
    current_settings_state == ShowSettingsUiState::Inactive
}

/// Opens the main menu: frees the pointer for it, and asks the camera
/// controller to stop.
pub fn enter_main_menu(
    window: &mut Window,
    evw_change_universal_cam: &mut Events<UniCamChangeStateEvent>,
)
    ensures
        *final(window) == with_cursor(*old(window), menu_cursor()),
        final(evw_change_universal_cam)@ == old(evw_change_universal_cam)@.push(
            UniCamChangeStateEvent(UniCamState::Disabled),
        ),
{
    window.cursor_options.grab_mode = CursorGrabMode::Confined;
    window.cursor_options.visible = true;
    evw_change_universal_cam.send(UniCamChangeStateEvent(UniCamState::Disabled));
}

/// Closes the main menu. Nothing is undone.
pub fn exit_main_menu() {
}

/// Takes a click on the main menu, and says whether the menu offers the
/// settings. `Settings` asks for the settings to open, where they are
/// offered; `Quit` asks for the program to end; `Start` does nothing.
pub fn main_menu(
    clicked: Option<MainMenuButton>,
    exit_events: &mut Events<AppExit>,
    current_settings_state: ShowSettingsUiState,
    settings_state: &mut NextState<ShowSettingsUiState>,
) -> (settings_btn_state: bool)
    ensures
        settings_btn_state == settings_offered(current_settings_state),
        *final(settings_state) == if clicked == Some(MainMenuButton::Settings)
            && settings_offered(current_settings_state) {
            NextState::Pending(ShowSettingsUiState::Active)
        } else {
            *old(settings_state)
        },
        final(exit_events)@ == if clicked == Some(MainMenuButton::Quit) {
            old(exit_events)@.push(AppExit::Success)
        } else {
            old(exit_events)@
        },
{
    let settings_btn_state = match current_settings_state {
        ShowSettingsUiState::Inactive => true,
        ShowSettingsUiState::Active => false,
    };

    match clicked {
        Some(MainMenuButton::Start) => {},
        Some(MainMenuButton::Settings) => {
            if settings_btn_state {
                settings_state.set(ShowSettingsUiState::Active);
            }
        },
        Some(MainMenuButton::Quit) => {
            exit_events.send(AppExit::Success);
        },
        None => {},
    }
    settings_btn_state
}

} // verus!
