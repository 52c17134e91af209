use construction_sandbox::events::Events;
use construction_sandbox::input::{KeyCode, KeyboardInput};
use construction_sandbox::main_menu::{
    enter_main_menu, enter_settings_ui, exit_main_menu, exit_settings_ui, main_menu, settings_ui,
    watchdog, AppExit, KeyAction, MainMenuActivityState, MainMenuButton, MainMenuInput,
    MainMenuPlugin, SettingsUiBridge, SettingsUiInput, ShowSettingsUiState, TmpGameSettings,
};
use construction_sandbox::settings::mouse::{
    MAX_SENSITIVITY, MIN_SENSITIVITY_HORIZONTAL, MIN_SENSITIVITY_VERTICAL,
};
use construction_sandbox::settings::{
    GameSettings, GameSettingsBridge, GameSettingsPlugin, KeyboardBindings, MouseSensitivity,
    VideoSettings,
};
use construction_sandbox::state::NextState;
use construction_sandbox::universal_camera_controller::{UniCamChangeStateEvent, UniCamState};
use construction_sandbox::window::{
    CursorGrabMode, CursorOptions, PresentMode, Window, WindowMode, WindowResolution,
};

fn window() -> Window {
    Window {
        resolution: WindowResolution { width: 800, height: 600 },
        mode: WindowMode::Fullscreen,
        present_mode: PresentMode::Immediate,
        cursor_options: CursorOptions { grab_mode: CursorGrabMode::Locked, visible: false },
    }
}

fn no_edit() -> SettingsUiInput {
    SettingsUiInput {
        rebind: None,
        sensitivity_vertical: None,
        sensitivity_horizontal: None,
        reset_default: false,
        apply: false,
        cancel: false,
    }
}

fn escape() -> KeyboardInput {
    KeyboardInput { pressed: vec![KeyCode::Escape], just_pressed: vec![KeyCode::Escape] }
}

fn idle() -> MainMenuInput {
    MainMenuInput { keys: KeyboardInput::new(), clicked: None, settings: no_edit() }
}

struct Menus {
    plugin: MainMenuPlugin,
    settings: GameSettings,
    bridge: GameSettingsBridge,
    camera_events: Events<UniCamChangeStateEvent>,
    exit_events: Events<AppExit>,
}

impl Menus {
    fn new() -> Menus {
        Menus {
            plugin: MainMenuPlugin::build(),
            settings: GameSettings::default(),
            bridge: GameSettingsBridge { window: window() },
            camera_events: Events::new(),
            exit_events: Events::new(),
        }
    }

    fn tick(&mut self, input: &MainMenuInput) -> Option<bool> {
        self.plugin.update(
            input,
            &mut self.settings,
            &mut self.bridge,
            &mut self.camera_events,
            &mut self.exit_events,
        )
    }

    fn with_settings_open() -> Menus {
        let mut menus = Menus::new();
        menus.tick(&MainMenuInput { keys: escape(), ..idle() });
        menus.tick(&idle());
        menus.tick(&MainMenuInput { clicked: Some(MainMenuButton::Settings), ..idle() });
        menus.tick(&idle());
        menus
    }
}

#[test]
fn the_settings_have_their_defaults() {
    let settings = GameSettings::default();
    assert_eq!(
        settings.keyboard,
        KeyboardBindings {
            forward: KeyCode::KeyW,
            backward: KeyCode::KeyS,
            left: KeyCode::KeyA,
            right: KeyCode::KeyD,
            jump: KeyCode::Space,
            crouch: KeyCode::ControlLeft,
            start_building: KeyCode::KeyB,
            stop_building: KeyCode::KeyN,
        }
    );
    assert_eq!(
        settings.mouse,
        MouseSensitivity { sensitivity_vertical: 57_296, sensitivity_horizontal: 85_944 }
    );
    assert_eq!(
        settings.video,
        VideoSettings {
            window_mode: WindowMode::Windowed,
            window_width: 1920,
            window_height: 1200,
            present_mode: PresentMode::AutoVsync,
        }
    );
    assert_eq!(KeyboardBindings::default(), settings.keyboard);
    assert_eq!(MouseSensitivity::default(), settings.mouse);
    assert_eq!(VideoSettings::default(), settings.video);
    assert_eq!(TmpGameSettings::default().0, settings);
}

#[test]
fn nothing_is_loaded_from_disk() {
    assert_eq!(GameSettings::try_load_from_disk(), None);
    assert_eq!(GameSettingsPlugin::build().settings, GameSettings::default());
}

#[test]
fn applying_the_settings_sets_the_window_up() {
    let mut settings = GameSettings::default();
    settings.video.window_width = 640;
    settings.video.window_height = 480;
    settings.video.window_mode = WindowMode::BorderlessFullscreen;
    settings.video.present_mode = PresentMode::Mailbox;
    let mut bridge = GameSettingsBridge { window: window() };
    settings.apply_settings(&mut bridge);
    assert_eq!(
        bridge.window,
        Window {
            resolution: WindowResolution { width: 640, height: 480 },
            mode: WindowMode::BorderlessFullscreen,
            present_mode: PresentMode::Mailbox,
            cursor_options: window().cursor_options,
        }
    );

    let mut bridge = GameSettingsBridge { window: window() };
    GameSettingsPlugin::build().apply_settings(&mut bridge);
    assert_eq!(bridge.window.resolution, WindowResolution { width: 1920, height: 1200 });
    assert_eq!(bridge.window.mode, WindowMode::Windowed);
    assert_eq!(bridge.window.present_mode, PresentMode::AutoVsync);
}

#[test]
fn escape_opens_and_closes_the_main_menu() {
    let mut next = NextState::Unchanged;
    watchdog(MainMenuActivityState::Inactive, &mut next, &KeyboardInput::new());
    assert_eq!(next, NextState::Unchanged);
    let held = KeyboardInput { pressed: vec![KeyCode::Escape], just_pressed: vec![] };
    watchdog(MainMenuActivityState::Inactive, &mut next, &held);
    assert_eq!(next, NextState::Unchanged);
    watchdog(MainMenuActivityState::Inactive, &mut next, &escape());
    assert_eq!(next, NextState::Pending(MainMenuActivityState::Active));
    watchdog(MainMenuActivityState::Active, &mut next, &escape());
    assert_eq!(next, NextState::Pending(MainMenuActivityState::Inactive));
    assert_eq!(MainMenuActivityState::default(), MainMenuActivityState::Inactive);
    assert_eq!(ShowSettingsUiState::default(), ShowSettingsUiState::Inactive);
}

#[test]
fn opening_the_main_menu_frees_the_pointer_and_stops_the_camera() {
    let mut window = window();
    let mut events = Events::new();
    enter_main_menu(&mut window, &mut events);
    exit_main_menu();
    assert_eq!(
        window.cursor_options,
        CursorOptions { grab_mode: CursorGrabMode::Confined, visible: true }
    );
    assert_eq!(window.mode, WindowMode::Fullscreen);
    assert_eq!(events.drain(), vec![UniCamChangeStateEvent(UniCamState::Disabled)]);
}

#[test]
fn the_main_menu_takes_its_clicks() {
    let mut exit_events = Events::new();
    let mut next = NextState::Unchanged;

    assert!(main_menu(None, &mut exit_events, ShowSettingsUiState::Inactive, &mut next));
    assert!(!main_menu(None, &mut exit_events, ShowSettingsUiState::Active, &mut next));
    assert!(main_menu(Some(MainMenuButton::Start), &mut exit_events, ShowSettingsUiState::Inactive, &mut next));
    assert_eq!(next, NextState::Unchanged);
    assert!(exit_events.is_empty());

    // While the settings are open their button is switched off.
    main_menu(Some(MainMenuButton::Settings), &mut exit_events, ShowSettingsUiState::Active, &mut next);
    assert_eq!(next, NextState::Unchanged);
    main_menu(Some(MainMenuButton::Settings), &mut exit_events, ShowSettingsUiState::Inactive, &mut next);
    assert_eq!(next, NextState::Pending(ShowSettingsUiState::Active));

    main_menu(Some(MainMenuButton::Quit), &mut exit_events, ShowSettingsUiState::Inactive, &mut next);
    assert_eq!(exit_events.drain(), vec![AppExit::Success]);
}

#[test]
fn the_settings_window_edits_a_copy() {
    let mut settings = GameSettings::default();
    settings.mouse.sensitivity_vertical = 100_000;
    let mut tmp = None;
    enter_settings_ui(&mut tmp, &settings);
    assert_eq!(tmp, Some(TmpGameSettings(settings)));
    exit_settings_ui(&mut tmp);
    assert_eq!(tmp, None);
}

fn bridge_over<'a>(keys: &'a KeyboardInput) -> SettingsUiBridge<'a> {
    SettingsUiBridge {
        tmp_settings: TmpGameSettings::default(),
        settings: GameSettings::default(),
        settings_ui_state: NextState::Unchanged,
        game_settings_bridge: GameSettingsBridge { window: window() },
        keys,
    }
}

#[test]
fn a_binding_takes_the_first_key_that_is_held() {
    let keys = KeyboardInput { pressed: vec![KeyCode::Other(30), KeyCode::KeyW], just_pressed: vec![] };
    let actions = [
        KeyAction::Forward,
        KeyAction::Backward,
        KeyAction::Left,
        KeyAction::Right,
        KeyAction::Jump,
        KeyAction::Crouch,
        KeyAction::StartBuilding,
        KeyAction::StopBuilding,
    ];
    for action in actions {
        let mut bridge = bridge_over(&keys);
        settings_ui(&mut bridge, &SettingsUiInput { rebind: Some(action), ..no_edit() });
        let mut expected = KeyboardBindings::default();
        match action {
            KeyAction::Forward => expected.forward = KeyCode::Other(30),
            KeyAction::Backward => expected.backward = KeyCode::Other(30),
            KeyAction::Left => expected.left = KeyCode::Other(30),
            KeyAction::Right => expected.right = KeyCode::Other(30),
            KeyAction::Jump => expected.jump = KeyCode::Other(30),
            KeyAction::Crouch => expected.crouch = KeyCode::Other(30),
            KeyAction::StartBuilding => expected.start_building = KeyCode::Other(30),
            KeyAction::StopBuilding => expected.stop_building = KeyCode::Other(30),
        }
        assert_eq!(bridge.tmp_settings.0.keyboard, expected);
        assert_eq!(bridge.settings, GameSettings::default());
        assert_eq!(bridge.settings_ui_state, NextState::Unchanged);
    }
}

#[test]
fn a_binding_stays_without_a_key_or_a_click() {
    let nothing = KeyboardInput { pressed: vec![], just_pressed: vec![KeyCode::KeyB] };
    let mut bridge = bridge_over(&nothing);
    settings_ui(&mut bridge, &SettingsUiInput { rebind: Some(KeyAction::Jump), ..no_edit() });
    assert_eq!(bridge.tmp_settings, TmpGameSettings::default());

    let held = KeyboardInput { pressed: vec![KeyCode::KeyB], just_pressed: vec![] };
    let mut bridge = bridge_over(&held);
    settings_ui(&mut bridge, &no_edit());
    assert_eq!(bridge.tmp_settings, TmpGameSettings::default());
}

#[test]
fn the_sliders_stay_within_their_ranges() {
    let keys = KeyboardInput::new();
    let mut bridge = bridge_over(&keys);
    settings_ui(
        &mut bridge,
        &SettingsUiInput {
            sensitivity_vertical: Some(100_000),
            sensitivity_horizontal: Some(200_000),
            ..no_edit()
        },
    );
    assert_eq!(
        bridge.tmp_settings.0.mouse,
        MouseSensitivity { sensitivity_vertical: 100_000, sensitivity_horizontal: 200_000 }
    );
    settings_ui(
        &mut bridge,
        &SettingsUiInput {
            sensitivity_vertical: Some(0),
            sensitivity_horizontal: Some(u32::MAX),
            ..no_edit()
        },
    );
    assert_eq!(
        bridge.tmp_settings.0.mouse,
        MouseSensitivity {
            sensitivity_vertical: MIN_SENSITIVITY_VERTICAL,
            sensitivity_horizontal: MAX_SENSITIVITY,
        }
    );
    settings_ui(
        &mut bridge,
        &SettingsUiInput {
            sensitivity_vertical: Some(u32::MAX),
            sensitivity_horizontal: Some(1),
            ..no_edit()
        },
    );
    assert_eq!(
        bridge.tmp_settings.0.mouse,
        MouseSensitivity {
            sensitivity_vertical: MAX_SENSITIVITY,
            sensitivity_horizontal: MIN_SENSITIVITY_HORIZONTAL,
        }
    );
    assert_eq!(MIN_SENSITIVITY_VERTICAL, 28_648);
    assert_eq!(MIN_SENSITIVITY_HORIZONTAL, 42_972);
    assert_eq!(MAX_SENSITIVITY, 286_479);
    assert_eq!(bridge.settings, GameSettings::default());
}

#[test]
fn apply_puts_the_copy_in_force_and_closes() {
    let keys = KeyboardInput::new();
    let mut bridge = bridge_over(&keys);
    bridge.tmp_settings.0.video.window_width = 1024;
    bridge.tmp_settings.0.video.window_height = 768;
    settings_ui(
        &mut bridge,
        &SettingsUiInput { sensitivity_vertical: Some(60_000), apply: true, ..no_edit() },
    );
    let mut expected = GameSettings::default();
    expected.video.window_width = 1024;
    expected.video.window_height = 768;
    expected.mouse.sensitivity_vertical = 60_000;
    assert_eq!(bridge.settings, expected);
    assert_eq!(bridge.tmp_settings.0, expected);
    assert_eq!(bridge.game_settings_bridge.window.resolution, WindowResolution { width: 1024, height: 768 });
    assert_eq!(bridge.game_settings_bridge.window.mode, WindowMode::Windowed);
    assert_eq!(bridge.game_settings_bridge.window.present_mode, PresentMode::AutoVsync);
    assert_eq!(bridge.game_settings_bridge.window.cursor_options, window().cursor_options);
    assert_eq!(bridge.settings_ui_state, NextState::Pending(ShowSettingsUiState::Inactive));
}

#[test]
fn cancel_closes_and_keeps_the_settings_in_force() {
    let keys = KeyboardInput::new();
    let mut bridge = bridge_over(&keys);
    settings_ui(
        &mut bridge,
        &SettingsUiInput { sensitivity_vertical: Some(60_000), cancel: true, ..no_edit() },
    );
    assert_eq!(bridge.settings, GameSettings::default());
    assert_eq!(bridge.game_settings_bridge.window, window());
    assert_eq!(bridge.settings_ui_state, NextState::Pending(ShowSettingsUiState::Inactive));
}

#[test]
fn reset_puts_the_defaults_under_edit() {
    let keys = KeyboardInput { pressed: vec![KeyCode::KeyN], just_pressed: vec![] };
    let mut bridge = bridge_over(&keys);
    bridge.settings.mouse.sensitivity_horizontal = 50_000;
    bridge.tmp_settings.0.video.window_width = 1024;
    settings_ui(
        &mut bridge,
        &SettingsUiInput { rebind: Some(KeyAction::Jump), reset_default: true, ..no_edit() },
    );
    assert_eq!(bridge.tmp_settings, TmpGameSettings::default());
    assert_eq!(bridge.settings.mouse.sensitivity_horizontal, 50_000);
    assert_eq!(bridge.settings_ui_state, NextState::Unchanged);
    assert_eq!(bridge.game_settings_bridge.window, window());
}

#[test]
fn the_menus_open_one_tick_after_they_are_asked_for() {
    let mut menus = Menus::new();
    assert_eq!(menus.tick(&MainMenuInput { keys: escape(), ..idle() }), None);
    assert_eq!(menus.plugin.activity, MainMenuActivityState::Inactive);
    assert_eq!(menus.plugin.next_activity, NextState::Pending(MainMenuActivityState::Active));
    assert!(menus.camera_events.is_empty());

    assert_eq!(menus.tick(&idle()), Some(true));
    assert_eq!(menus.plugin.activity, MainMenuActivityState::Active);
    assert_eq!(
        menus.bridge.window.cursor_options,
        CursorOptions { grab_mode: CursorGrabMode::Confined, visible: true }
    );
    assert_eq!(menus.camera_events.drain(), vec![UniCamChangeStateEvent(UniCamState::Disabled)]);

    assert_eq!(menus.tick(&MainMenuInput { clicked: Some(MainMenuButton::Settings), ..idle() }), Some(true));
    assert_eq!(menus.plugin.settings_ui, ShowSettingsUiState::Inactive);
    assert_eq!(menus.plugin.tmp_settings, None);
    assert_eq!(menus.tick(&idle()), Some(false));
    assert_eq!(menus.plugin.settings_ui, ShowSettingsUiState::Active);
    assert_eq!(menus.plugin.tmp_settings, Some(TmpGameSettings(GameSettings::default())));

    // Closing the main menu undoes nothing.
    menus.tick(&MainMenuInput { keys: escape(), ..idle() });
    assert_eq!(menus.tick(&idle()), None);
    assert_eq!(menus.plugin.activity, MainMenuActivityState::Inactive);
    assert!(menus.camera_events.is_empty());
    assert!(menus.bridge.window.cursor_options.visible);
}

#[test]
fn the_settings_are_edited_through_the_plugin() {
    let mut menus = Menus::with_settings_open();
    let held = KeyboardInput { pressed: vec![KeyCode::Other(9)], just_pressed: vec![] };
    menus.tick(&MainMenuInput {
        keys: held,
        clicked: None,
        settings: SettingsUiInput {
            rebind: Some(KeyAction::Crouch),
            sensitivity_horizontal: Some(90_000),
            ..no_edit()
        },
    });
    let mut edited = GameSettings::default();
    edited.keyboard.crouch = KeyCode::Other(9);
    edited.mouse.sensitivity_horizontal = 90_000;
    assert_eq!(menus.plugin.tmp_settings, Some(TmpGameSettings(edited)));
    assert_eq!(menus.settings, GameSettings::default());

    menus.tick(&MainMenuInput { settings: SettingsUiInput { apply: true, ..no_edit() }, ..idle() });
    assert_eq!(menus.settings, edited);
    assert_eq!(menus.bridge.window.resolution, WindowResolution { width: 1920, height: 1200 });
    assert_eq!(menus.plugin.next_settings_ui, NextState::Pending(ShowSettingsUiState::Inactive));

    assert_eq!(menus.tick(&idle()), Some(true));
    assert_eq!(menus.plugin.settings_ui, ShowSettingsUiState::Inactive);
    assert_eq!(menus.plugin.tmp_settings, None);
    assert_eq!(menus.settings, edited);
}

#[test]
fn quit_asks_for_the_program_to_end() {
    let mut menus = Menus::new();
    menus.tick(&MainMenuInput { clicked: Some(MainMenuButton::Quit), ..idle() });
    assert!(menus.exit_events.is_empty());
    menus.tick(&MainMenuInput { keys: escape(), ..idle() });
    menus.tick(&MainMenuInput { clicked: Some(MainMenuButton::Quit), ..idle() });
    assert_eq!(menus.exit_events.drain(), vec![AppExit::Success]);
}
