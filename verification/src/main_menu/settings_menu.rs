use super::ShowSettingsUiState;
use crate::input::{KeyCode, KeyboardInput};
use crate::math::clamp;
use crate::settings::mouse::{
    MAX_SENSITIVITY, MIN_SENSITIVITY_HORIZONTAL, MIN_SENSITIVITY_VERTICAL,
};
use crate::settings::{GameSettings, GameSettingsBridge, KeyboardBindings, MouseSensitivity};
use crate::state::NextState;
use vstd::prelude::*;

verus! {

/// The settings as the player edits them, before they are applied.
#[derive(Clone, Copy, Debug, PartialEq, Eq, Structural)]
pub struct TmpGameSettings(pub GameSettings);

impl Default for TmpGameSettings {
    fn default() -> (settings: Self)
        ensures
            settings.0 == GameSettings::spec_default(),
    {
        TmpGameSettings(GameSettings::default())
    }
}

/// An action that a key can be bound to.
#[derive(Clone, Copy, Debug, PartialEq, Eq, Structural)]
pub enum KeyAction {
    Forward,
    Backward,
    Left,
    Right,
    Jump,
    Crouch,
    StartBuilding,
    StopBuilding,
}

/// What the player did in the settings window in one frame.
#[derive(Clone, Copy, Debug, PartialEq, Eq, Structural)]
pub struct SettingsUiInput {
    /// The binding whose button was clicked.
    pub rebind: Option<KeyAction>,
    /// Where the slider of the vertical sensitivity was dragged to.
    pub sensitivity_vertical: Option<u32>,
    /// Where the slider of the horizontal sensitivity was dragged to.
    pub sensitivity_horizontal: Option<u32>,
    pub reset_default: bool,
    pub apply: bool,
    pub cancel: bool,
}

/// What the settings window works on.
pub struct SettingsUiBridge<'w> {
    pub tmp_settings: TmpGameSettings,
    pub settings: GameSettings,
    pub settings_ui_state: NextState<ShowSettingsUiState>,
    pub game_settings_bridge: GameSettingsBridge,
    pub keys: &'w KeyboardInput,
}

/// `bindings` with `action` bound to `key`.
pub open spec fn rebound(
    bindings: KeyboardBindings,
    action: KeyAction,
    key: KeyCode,
) -> KeyboardBindings {
    match action {
        KeyAction::Forward => KeyboardBindings { forward: key, ..bindings },
        KeyAction::Backward => KeyboardBindings { backward: key, ..bindings },
        KeyAction::Left => KeyboardBindings { left: key, ..bindings },
        KeyAction::Right => KeyboardBindings { right: key, ..bindings },
        KeyAction::Jump => KeyboardBindings { jump: key, ..bindings },
        KeyAction::Crouch => KeyboardBindings { crouch: key, ..bindings },
        KeyAction::StartBuilding => KeyboardBindings { start_building: key, ..bindings },
        KeyAction::StopBuilding => KeyboardBindings { stop_building: key, ..bindings },
    }
}

/// The bindings after a frame of the keyboard section: the action whose
/// button was clicked is bound to the first of the keys that are held down.
/// With no click, or no key held, the bindings stay.
pub open spec fn edited_bindings(
    bindings: KeyboardBindings,
    rebind: Option<KeyAction>,
    keys: KeyboardInput,
) -> KeyboardBindings {
    match rebind {
        Some(action) => if keys.pressed@.len() > 0 {
            rebound(bindings, action, keys.pressed@[0])
        } else {
            bindings
        },
        None => bindings,
    }
}

/// A sensitivity after a frame of its slider: where the slider was dragged
/// to, within the slider's range.
pub open spec fn slid(value: u32, dragged: Option<u32>, low: u32, high: u32) -> u32 {
    match dragged {
        Some(position) => clamp(position as int, low as int, high as int) as u32,
        None => value,
    }
}

/// The sensitivities after a frame of the mouse section.
pub open spec fn edited_sensitivity(
    mouse: MouseSensitivity,
    input: SettingsUiInput,
) -> MouseSensitivity {
    MouseSensitivity {
        sensitivity_vertical: slid(
            mouse.sensitivity_vertical,
            input.sensitivity_vertical,
            MIN_SENSITIVITY_VERTICAL,
            MAX_SENSITIVITY,
        ),
        sensitivity_horizontal: slid(
            mouse.sensitivity_horizontal,
            input.sensitivity_horizontal,
            MIN_SENSITIVITY_HORIZONTAL,
            MAX_SENSITIVITY,
        ),
    }
}

/// The settings under edit after a frame of the sections.
pub open spec fn edited_settings(
    tmp: GameSettings,
    input: SettingsUiInput,
    keys: KeyboardInput,
) -> GameSettings {
    GameSettings {
        keyboard: edited_bindings(tmp.keyboard, input.rebind, keys),
        mouse: edited_sensitivity(tmp.mouse, input),
        video: tmp.video,
    }
}

/// The settings under edit after the buttons at the foot of the window:
/// `Reset default` puts the defaults in their place.
pub open spec fn submitted_settings(edited: GameSettings, input: SettingsUiInput) -> GameSettings {
    if input.reset_default {
        GameSettings::spec_default()
    } else {
        edited
    }
}

/// Opens the settings: the player edits a copy of the settings in force.
pub fn enter_settings_ui(tmp_settings: &mut Option<TmpGameSettings>, settings: &GameSettings)
    ensures
        *final(tmp_settings) == Some(TmpGameSettings(*settings)),
{
    *tmp_settings = Some(TmpGameSettings(*settings));
}

/// Closes the settings: the copy under edit is dropped.
pub fn exit_settings_ui(tmp_settings: &mut Option<TmpGameSettings>)
    ensures
        final(tmp_settings).is_none(),
{
    *tmp_settings = None;
}

/// One frame of the settings window: the sections edit the copy, then the
/// buttons at the foot act on it. `Apply` puts the copy in force, sets the
/// window up by it and asks for the settings to close; `Cancel` only asks
/// for them to close.
pub fn settings_ui(bridge: &mut SettingsUiBridge, input: &SettingsUiInput)
    ensures
        final(bridge).tmp_settings.0 == submitted_settings(
            edited_settings(old(bridge).tmp_settings.0, *input, *old(bridge).keys),
            *input,
        ),
        final(bridge).settings == if input.apply {
            final(bridge).tmp_settings.0
        } else {
            old(bridge).settings
        },
        final(bridge).game_settings_bridge.window == if input.apply {
            final(bridge).settings.applied_to(old(bridge).game_settings_bridge.window)
        } else {
            old(bridge).game_settings_bridge.window
        },
        final(bridge).settings_ui_state == if input.apply || input.cancel {
            NextState::Pending(ShowSettingsUiState::Inactive)
        } else {
            old(bridge).settings_ui_state
        },
        final(bridge).keys == old(bridge).keys,
{
    submenu_keyboard(bridge, input.rebind);
    submenu_mouse(bridge, input);
    submenu_video(bridge);
    form_save_or_cancel_or_defaults(bridge, input);
}

fn submenu_keyboard(bridge: &mut SettingsUiBridge, rebind: Option<KeyAction>)
    ensures
        final(bridge).tmp_settings.0.keyboard == edited_bindings(
            old(bridge).tmp_settings.0.keyboard,
            rebind,
            *old(bridge).keys,
        ),
        final(bridge).tmp_settings.0.mouse == old(bridge).tmp_settings.0.mouse,
        final(bridge).tmp_settings.0.video == old(bridge).tmp_settings.0.video,
        final(bridge).settings == old(bridge).settings,
        final(bridge).settings_ui_state == old(bridge).settings_ui_state,
        final(bridge).game_settings_bridge == old(bridge).game_settings_bridge,
        final(bridge).keys == old(bridge).keys,
{
    let pressed_keys = bridge.keys.first_pressed();
    match (rebind, pressed_keys) {
        (Some(action), Some(key)) => {
            let keyboard = &mut bridge.tmp_settings.0.keyboard;
            match action {
                KeyAction::Forward => keyboard.forward = key,
                KeyAction::Backward => keyboard.backward = key,
                KeyAction::Left => keyboard.left = key,
                KeyAction::Right => keyboard.right = key,
                KeyAction::Jump => keyboard.jump = key,
                KeyAction::Crouch => keyboard.crouch = key,
                KeyAction::StartBuilding => keyboard.start_building = key,
                KeyAction::StopBuilding => keyboard.stop_building = key,
            }
        },
        _ => {},
    }
}

fn submenu_mouse(bridge: &mut SettingsUiBridge, input: &SettingsUiInput)
    ensures
        final(bridge).tmp_settings.0.mouse == edited_sensitivity(
            old(bridge).tmp_settings.0.mouse,
            *input,
        ),
        final(bridge).tmp_settings.0.keyboard == old(bridge).tmp_settings.0.keyboard,
        final(bridge).tmp_settings.0.video == old(bridge).tmp_settings.0.video,
        final(bridge).settings == old(bridge).settings,
        final(bridge).settings_ui_state == old(bridge).settings_ui_state,
        final(bridge).game_settings_bridge == old(bridge).game_settings_bridge,
        final(bridge).keys == old(bridge).keys,
{
    let vertical = add_slider(
        bridge.tmp_settings.0.mouse.sensitivity_vertical,
        input.sensitivity_vertical,
        MIN_SENSITIVITY_VERTICAL,
        MAX_SENSITIVITY,
    );
    let horizontal = add_slider(
        bridge.tmp_settings.0.mouse.sensitivity_horizontal,
        input.sensitivity_horizontal,
        MIN_SENSITIVITY_HORIZONTAL,
        MAX_SENSITIVITY,
    );
    bridge.tmp_settings.0.mouse.sensitivity_vertical = vertical;
    bridge.tmp_settings.0.mouse.sensitivity_horizontal = horizontal;
}

fn submenu_video(_bridge: &mut SettingsUiBridge)
    ensures
        *final(_bridge) == *old(_bridge),
{
}

fn form_save_or_cancel_or_defaults(bridge: &mut SettingsUiBridge, input: &SettingsUiInput)
    ensures
        final(bridge).tmp_settings.0 == submitted_settings(old(bridge).tmp_settings.0, *input),
        final(bridge).settings == if input.apply {
            final(bridge).tmp_settings.0
        } else {
            old(bridge).settings
        },
        final(bridge).game_settings_bridge.window == if input.apply {
            final(bridge).settings.applied_to(old(bridge).game_settings_bridge.window)
        } else {
            old(bridge).game_settings_bridge.window
        },
        final(bridge).settings_ui_state == if input.apply || input.cancel {
            NextState::Pending(ShowSettingsUiState::Inactive)
        } else {
            old(bridge).settings_ui_state
        },
        final(bridge).keys == old(bridge).keys,
{
    if input.reset_default {
        bridge.tmp_settings.0 = GameSettings::default();
    }
    if input.apply {
        apply_settings(bridge);
    }
    if input.cancel {
        bridge.settings_ui_state.set(ShowSettingsUiState::Inactive);
    }
}

fn apply_settings(bridge: &mut SettingsUiBridge)
    ensures
        final(bridge).tmp_settings == old(bridge).tmp_settings,
        final(bridge).settings == old(bridge).tmp_settings.0,
        final(bridge).game_settings_bridge.window == final(bridge).settings.applied_to(
            old(bridge).game_settings_bridge.window,
        ),
        final(bridge).settings_ui_state == NextState::Pending(ShowSettingsUiState::Inactive),
        final(bridge).keys == old(bridge).keys,
{
    bridge.settings = bridge.tmp_settings.0;
    let settings = bridge.settings;
    settings.apply_settings(&mut bridge.game_settings_bridge);
    bridge.settings_ui_state.set(ShowSettingsUiState::Inactive);
}

fn add_slider(value: u32, dragged: Option<u32>, low: u32, high: u32) -> (result: u32)
    requires
        low <= high,
    ensures
        result == slid(value, dragged, low, high),
{
    match dragged {
        Some(position) => if position < low {
            low
        } else if position > high {
            high
        } else {
            position
        },
        None => value,
    }
}

} // verus!
