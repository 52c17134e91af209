use super::game_settings::{GameSettings, GameSettingsBridge};
use vstd::prelude::*;

verus! {

/// The settings subsystem: it holds the settings in force.
#[derive(Clone, Copy, Debug, PartialEq, Eq, Structural)]
pub struct GameSettingsPlugin {
    pub settings: GameSettings,
}

impl GameSettingsPlugin {
    /// Starts from what is stored, or from the defaults where nothing is.
    pub fn build() -> (plugin: Self)
        ensures
            plugin.settings == GameSettings::spec_default(),
    {
        let settings = match GameSettings::try_load_from_disk() {
            Some(loaded) => loaded,
            None => GameSettings::default(),
        };
        GameSettingsPlugin { settings }
    }

    /// Applies the settings in force, once, when the program starts.
    pub fn apply_settings(&self, bridge: &mut GameSettingsBridge)
        ensures
            final(bridge).window == self.settings.applied_to(old(bridge).window),
    {
        self.settings.apply_settings(bridge);
    }
}

} // verus!
