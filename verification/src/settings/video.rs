use crate::window::{PresentMode, WindowMode};
use vstd::prelude::*;

verus! {

/// How the window is set up.
#[derive(Clone, Copy, Debug, PartialEq, Eq, Structural)]
pub struct VideoSettings {
    /// Which fullscreen or windowing mode is used.
    pub window_mode: WindowMode,
    pub window_width: u32,
    pub window_height: u32,
    pub present_mode: PresentMode,
}

impl VideoSettings {
    /// A window of 1920 by 1200 pixels, synchronized with the display.
    pub open spec fn spec_default() -> VideoSettings {
        VideoSettings {
            window_mode: WindowMode::Windowed,
            window_width: 1920,
            window_height: 1200,
            present_mode: PresentMode::AutoVsync,
        }
    }
}

impl Default for VideoSettings {
    fn default() -> (video: Self)
        ensures
            video == VideoSettings::spec_default(),
    {
        VideoSettings {
            window_mode: WindowMode::Windowed,
            window_width: 1920,
            window_height: 1200,
            present_mode: PresentMode::AutoVsync,
        }
    }
}

} // verus!
