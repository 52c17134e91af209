//! The main menu and the settings window that it opens.

pub mod main_menu;
pub mod settings_menu;

use crate::building::building_menu::{menu_cursor, with_cursor};
use crate::events::Events;
use crate::input::{KeyCode, KeyboardInput};
use crate::settings::{GameSettings, GameSettingsBridge};
use crate::state::NextState;
use crate::universal_camera_controller::{UniCamChangeStateEvent, UniCamState};
use crate::window::Window;
pub use main_menu::{enter_main_menu, exit_main_menu, main_menu, AppExit, MainMenuButton};
pub use settings_menu::{
    enter_settings_ui, exit_settings_ui, settings_ui, KeyAction, SettingsUiBridge, SettingsUiInput,
    TmpGameSettings,
};
use vstd::prelude::*;

verus! {

/// Whether the main menu is open.
#[derive(Clone, Copy, Debug, PartialEq, Eq, Hash, Structural)]
pub enum MainMenuActivityState {
    Inactive,
    Active,
}

impl Default for MainMenuActivityState {
    fn default() -> (state: Self)
        ensures
            state == MainMenuActivityState::Inactive,
    {
        MainMenuActivityState::Inactive
    }
}

/// Whether the settings window is open.
#[derive(Clone, Copy, Debug, PartialEq, Eq, Hash, Structural)]
pub enum ShowSettingsUiState {
    Inactive,
    Active,
}

impl Default for ShowSettingsUiState {
    fn default() -> (state: Self)
        ensures
            state == ShowSettingsUiState::Inactive,
    {
        ShowSettingsUiState::Inactive
    }
}

/// The other of the two activity states.
pub open spec fn toggled(state: MainMenuActivityState) -> MainMenuActivityState {
    match state {
        MainMenuActivityState::Inactive => MainMenuActivityState::Active,
        MainMenuActivityState::Active => MainMenuActivityState::Inactive,
    }
}

/// Opens or closes the main menu when the escape key goes down.
pub fn watchdog(
    current_state: MainMenuActivityState,
    next_state: &mut NextState<MainMenuActivityState>,
    keys: &KeyboardInput,
)
    ensures
        *final(next_state) == if keys.is_just_pressed(KeyCode::Escape) {
            NextState::Pending(toggled(current_state))
        } else {
            *old(next_state)
        },
{
    if keys.just_pressed(KeyCode::Escape) {
        match current_state {
            MainMenuActivityState::Inactive => {
                next_state.set(MainMenuActivityState::Active);
            },
            MainMenuActivityState::Active => {
                next_state.set(MainMenuActivityState::Inactive);
            },
        }
    }
}

/// What the player did in the menus in one frame.
pub struct MainMenuInput {
    pub keys: KeyboardInput,
    /// The button of the main menu that was clicked.
    pub clicked: Option<MainMenuButton>,
    pub settings: SettingsUiInput,
}

/// The menu subsystem: whether the main menu and the settings window are
/// open, and the settings under edit while the window is.
pub struct MainMenuPlugin {
    pub activity: MainMenuActivityState,
    pub next_activity: NextState<MainMenuActivityState>,
    pub settings_ui: ShowSettingsUiState,
    pub next_settings_ui: NextState<ShowSettingsUiState>,
    pub tmp_settings: Option<TmpGameSettings>,
}

impl MainMenuPlugin {
    /// The activity state in which a tick runs.
    pub open spec fn entered_activity(&self) -> MainMenuActivityState {
        match self.next_activity {
            NextState::Pending(state) => state,
            NextState::Unchanged => self.activity,
        }
    }

    /// The state of the settings window in which a tick runs.
    pub open spec fn entered_settings_ui(&self) -> ShowSettingsUiState {
        match self.next_settings_ui {
            NextState::Pending(state) => state,
            NextState::Unchanged => self.settings_ui,
        }
    }

    /// Whether a tick opens the main menu.
    pub open spec fn opens_menu(&self) -> bool {
        self.activity == MainMenuActivityState::Inactive && self.entered_activity()
            == MainMenuActivityState::Active
    }

    /// The settings under edit once the states of a tick are entered: a copy
    /// of the settings in force where the window opens, none where it
    /// closes, each only while the main menu is open.
    pub open spec fn entered_tmp_settings(&self, settings: GameSettings) -> Option<
        TmpGameSettings,
    > {
        if self.entered_activity() == MainMenuActivityState::Active && self.settings_ui
            != self.entered_settings_ui() {
            match self.entered_settings_ui() {
                ShowSettingsUiState::Active => Some(TmpGameSettings(settings)),
                ShowSettingsUiState::Inactive => None,
            }
        } else {
            self.tmp_settings
        }
    }

    /// Whether the settings window takes the input of a tick.
    pub open spec fn edits_settings(&self, settings: GameSettings) -> bool {
        &&& self.entered_activity() == MainMenuActivityState::Active
        &&& self.entered_settings_ui() == ShowSettingsUiState::Active
        &&& self.entered_tmp_settings(settings).is_some()
    }

    /// The subsystem as it starts: both closed.
    pub fn build() -> (plugin: Self)
        ensures
            plugin.activity == MainMenuActivityState::Inactive,
            plugin.next_activity == NextState::<MainMenuActivityState>::Unchanged,
            plugin.settings_ui == ShowSettingsUiState::Inactive,
            plugin.next_settings_ui == NextState::<ShowSettingsUiState>::Unchanged,
            plugin.tmp_settings.is_none(),
    {
        MainMenuPlugin {
            activity: MainMenuActivityState::default(),
            next_activity: NextState::Unchanged,
            settings_ui: ShowSettingsUiState::default(),
            next_settings_ui: NextState::Unchanged,
            tmp_settings: None,
        }
    }

    /// The first half of a tick: enters the states that were requested in an
    /// earlier tick, and runs their hooks. Opening the main menu frees the
    /// pointer and stops the camera controller. Opening and closing the
    /// settings window makes and drops the copy under edit, while the main
    /// menu is open.
    pub fn apply_state_transitions(
        &mut self,
        settings: &GameSettings,
        window: &mut Window,
        camera_events: &mut Events<UniCamChangeStateEvent>,
    )
        ensures
            final(self).activity == old(self).entered_activity(),
            final(self).next_activity == NextState::<MainMenuActivityState>::Unchanged,
            final(self).settings_ui == old(self).entered_settings_ui(),
            final(self).next_settings_ui == NextState::<ShowSettingsUiState>::Unchanged,
            final(self).tmp_settings == old(self).entered_tmp_settings(*settings),
            *final(window) == if old(self).opens_menu() {
                with_cursor(*old(window), menu_cursor())
            } else {
                *old(window)
            },
            final(camera_events)@ == if old(self).opens_menu() {
                old(camera_events)@.push(UniCamChangeStateEvent(UniCamState::Disabled))
            } else {
                old(camera_events)@
            },
    {
        match self.next_activity.take() {
            Some(entered) => {
                let exited = self.activity;
                if entered != exited {
                    match exited {
                        MainMenuActivityState::Active => exit_main_menu(),
                        MainMenuActivityState::Inactive => {},
                    }
                    self.activity = entered;
                    match entered {
                        MainMenuActivityState::Active => enter_main_menu(window, camera_events),
                        MainMenuActivityState::Inactive => {},
                    }
                }
            },
            None => {},
        }
        match self.next_settings_ui.take() {
            Some(entered) => {
                let exited = self.settings_ui;
                if entered != exited {
                    self.settings_ui = entered;
                    match self.activity {
                        MainMenuActivityState::Active => {
                            match entered {
                                ShowSettingsUiState::Active => enter_settings_ui(
                                    &mut self.tmp_settings,
                                    settings,
                                ),
                                ShowSettingsUiState::Inactive => exit_settings_ui(
                                    &mut self.tmp_settings,
                                ),
                            }
                        },
                        MainMenuActivityState::Inactive => {},
                    }
                }
            },
            None => {},
        }
    }

    /// Whether the settings window takes the input of a tick's systems.
    pub open spec fn edits(&self) -> bool {
        &&& self.activity == MainMenuActivityState::Active
        &&& self.settings_ui == ShowSettingsUiState::Active
        &&& self.tmp_settings.is_some()
    }

    /// What a click on the main menu asks of the settings window.
    pub open spec fn clicked_settings_ui(&self, clicked: Option<MainMenuButton>) -> NextState<
        ShowSettingsUiState,
    > {
        if self.activity == MainMenuActivityState::Active && clicked == Some(
            MainMenuButton::Settings,
        ) && main_menu::settings_offered(self.settings_ui) {
            NextState::Pending(ShowSettingsUiState::Active)
        } else {
            self.next_settings_ui
        }
    }

    /// The second half of a tick: the escape key asks for the main menu to
    /// open or close; while it is open, a click on it is taken; and while the
    /// settings window is open as well, the player's edits are taken.
    /// Returns whether the main menu offers the settings, where it is open.
    pub fn run_systems(
        &mut self,
        input: &MainMenuInput,
        settings: &mut GameSettings,
        game_settings_bridge: &mut GameSettingsBridge,
        exit_events: &mut Events<AppExit>,
    ) -> (settings_btn_state: Option<bool>)
        ensures
            final(self).activity == old(self).activity,
            final(self).settings_ui == old(self).settings_ui,
            final(self).next_activity == if input.keys.is_just_pressed(KeyCode::Escape) {
                NextState::Pending(toggled(old(self).activity))
            } else {
                old(self).next_activity
            },
            settings_btn_state == if old(self).activity == MainMenuActivityState::Active {
                Some(main_menu::settings_offered(old(self).settings_ui))
            } else {
                None
            },
            final(exit_events)@ == if old(self).activity == MainMenuActivityState::Active
                && input.clicked == Some(MainMenuButton::Quit) {
                old(exit_events)@.push(AppExit::Success)
            } else {
                old(exit_events)@
            },
            final(self).tmp_settings == if old(self).edits() {
                Some(
                    TmpGameSettings(
                        settings_menu::submitted_settings(
                            settings_menu::edited_settings(
                                old(self).tmp_settings.unwrap().0,
                                input.settings,
                                input.keys,
                            ),
                            input.settings,
                        ),
                    ),
                )
            } else {
                old(self).tmp_settings
            },
            *final(settings) == if old(self).edits() && input.settings.apply {
                final(self).tmp_settings.unwrap().0
            } else {
                *old(settings)
            },
            final(game_settings_bridge).window == if old(self).edits() && input.settings.apply {
                final(settings).applied_to(old(game_settings_bridge).window)
            } else {
                old(game_settings_bridge).window
            },
            final(self).next_settings_ui == if old(self).edits() && (input.settings.apply
                || input.settings.cancel) {
                NextState::Pending(ShowSettingsUiState::Inactive)
            } else {
                old(self).clicked_settings_ui(input.clicked)
            },
    {
        watchdog(self.activity, &mut self.next_activity, &input.keys);
        match self.activity {
            MainMenuActivityState::Inactive => None,
            MainMenuActivityState::Active => {
                let offered = main_menu(
                    input.clicked,
                    exit_events,
                    self.settings_ui,
                    &mut self.next_settings_ui,
                );
                match (self.settings_ui, self.tmp_settings) {
                    (ShowSettingsUiState::Active, Some(tmp_settings)) => {
                        let mut bridge = SettingsUiBridge {
                            tmp_settings,
                            settings: *settings,
                            settings_ui_state: self.next_settings_ui,
                            game_settings_bridge: *game_settings_bridge,
                            keys: &input.keys,
                        };
                        settings_ui(&mut bridge, &input.settings);
                        self.tmp_settings = Some(bridge.tmp_settings);
                        *settings = bridge.settings;
                        self.next_settings_ui = bridge.settings_ui_state;
                        *game_settings_bridge = bridge.game_settings_bridge;
                    },
                    _ => {},
                }
                Some(offered)
            },
        }
    }

    /// One tick: the state transitions, then the systems.
    pub fn update(
        &mut self,
        input: &MainMenuInput,
        settings: &mut GameSettings,
        game_settings_bridge: &mut GameSettingsBridge,
        camera_events: &mut Events<UniCamChangeStateEvent>,
        exit_events: &mut Events<AppExit>,
    ) -> (settings_btn_state: Option<bool>)
        ensures
            final(self).activity == old(self).entered_activity(),
            final(self).settings_ui == old(self).entered_settings_ui(),
            final(self).next_activity == if input.keys.is_just_pressed(KeyCode::Escape) {
                NextState::Pending(toggled(final(self).activity))
            } else {
                NextState::Unchanged
            },
            settings_btn_state == if final(self).activity == MainMenuActivityState::Active {
                Some(main_menu::settings_offered(final(self).settings_ui))
            } else {
                None
            },
            final(camera_events)@ == if old(self).opens_menu() {
                old(camera_events)@.push(UniCamChangeStateEvent(UniCamState::Disabled))
            } else {
                old(camera_events)@
            },
            final(exit_events)@ == if final(self).activity == MainMenuActivityState::Active
                && input.clicked == Some(MainMenuButton::Quit) {
                old(exit_events)@.push(AppExit::Success)
            } else {
                old(exit_events)@
            },
            final(self).tmp_settings == if old(self).edits_settings(*old(settings)) {
                Some(
                    TmpGameSettings(
                        settings_menu::submitted_settings(
                            settings_menu::edited_settings(
                                old(self).entered_tmp_settings(*old(settings)).unwrap().0,
                                input.settings,
                                input.keys,
                            ),
                            input.settings,
                        ),
                    ),
                )
            } else {
                old(self).entered_tmp_settings(*old(settings))
            },
            *final(settings) == if old(self).edits_settings(*old(settings))
                && input.settings.apply {
                final(self).tmp_settings.unwrap().0
            } else {
                *old(settings)
            },
            final(game_settings_bridge).window == {
                let entered = if old(self).opens_menu() {
                    with_cursor(old(game_settings_bridge).window, menu_cursor())
                } else {
                    old(game_settings_bridge).window
                };
                if old(self).edits_settings(*old(settings)) && input.settings.apply {
                    final(settings).applied_to(entered)
                } else {
                    entered
                }
            },
            final(self).next_settings_ui == if old(self).edits_settings(*old(settings)) && (
            input.settings.apply || input.settings.cancel) {
                NextState::Pending(ShowSettingsUiState::Inactive)
            } else if final(self).activity == MainMenuActivityState::Active && input.clicked
                == Some(MainMenuButton::Settings) && main_menu::settings_offered(
                final(self).settings_ui,
            ) {
                NextState::Pending(ShowSettingsUiState::Active)
            } else {
                NextState::Unchanged
            },
    {
        self.apply_state_transitions(settings, &mut game_settings_bridge.window, camera_events);
        self.run_systems(input, settings, game_settings_bridge, exit_events)
    }
}

} // verus!
