//! The player's settings: key bindings, pointer sensitivity and video.

pub mod game_settings;
pub mod keyboard;
pub mod mouse;
pub mod plugin;
pub mod video;

pub use game_settings::{GameSettings, GameSettingsBridge};
pub use keyboard::KeyboardBindings;
pub use mouse::MouseSensitivity;
pub use plugin::GameSettingsPlugin;
pub use video::VideoSettings;
