use super::keyboard::KeyboardBindings;
use super::mouse::MouseSensitivity;
use super::video::VideoSettings;
use crate::window::{Window, WindowResolution};
use vstd::prelude::*;

verus! {

/// Everything that the player can configure.
#[derive(Clone, Copy, Debug, PartialEq, Eq, Structural)]
pub struct GameSettings {
    pub keyboard: KeyboardBindings,
    pub mouse: MouseSensitivity,
    pub video: VideoSettings,
}

/// What the settings are applied to.
#[derive(Clone, Copy, Debug, PartialEq, Eq, Structural)]
pub struct GameSettingsBridge {
    pub window: Window,
}

impl GameSettings {
    /// The settings of a fresh installation.
    pub open spec fn spec_default() -> GameSettings {
        GameSettings {
            keyboard: KeyboardBindings::spec_default(),
            mouse: MouseSensitivity::spec_default(),
            video: VideoSettings::spec_default(),
        }
    }

    /// The window as these settings want it: its size, mode and present mode
    /// are theirs, the rest stays.
    pub open spec fn applied_to(&self, window: Window) -> Window {
        Window {
            resolution: WindowResolution {
                width: self.video.window_width,
                height: self.video.window_height,
            },
            mode: self.video.window_mode,
            present_mode: self.video.present_mode,
            cursor_options: window.cursor_options,
        }
    }

    /// Settings are not kept between runs: there is never anything to
    /// load.
    pub fn try_load_from_disk() -> (loaded: Option<GameSettings>)
        ensures
            loaded.is_none(),
    {
        None
    }

    /// Sets the window up as the video settings say.
    pub fn apply_settings(&self, bridge: &mut GameSettingsBridge)
        ensures
            final(bridge).window == self.applied_to(old(bridge).window),
    {
        bridge.window.resolution = WindowResolution {
            width: self.video.window_width,
            height: self.video.window_height,
        };
        bridge.window.mode = self.video.window_mode;
        bridge.window.present_mode = self.video.present_mode;
    }
}

impl Default for GameSettings {
    fn default() -> (settings: Self)
        ensures
            settings == GameSettings::spec_default(),
    {
        GameSettings {
            keyboard: KeyboardBindings::default(),
            mouse: MouseSensitivity::default(),
            video: VideoSettings::default(),
        }
    }
}

} // verus!
