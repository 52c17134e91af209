//! The part of the window that the sandbox configures.

use vstd::prelude::*;

verus! {

/// How the window confines the pointer.
#[derive(Clone, Copy, Debug, PartialEq, Eq, Structural)]
pub enum CursorGrabMode {
    /// The pointer moves freely.
    Free,
    /// The pointer stays within the window.
    Confined,
    /// The pointer stays where it is.
    Locked,
}

/// The pointer's state over the window.
#[derive(Clone, Copy, Debug, PartialEq, Eq, Structural)]
pub struct CursorOptions {
    pub grab_mode: CursorGrabMode,
    pub visible: bool,
}

/// How the window takes up the screen.
#[derive(Clone, Copy, Debug, PartialEq, Eq, Structural)]
pub enum WindowMode {
    Windowed,
    BorderlessFullscreen,
    SizedFullscreen,
    Fullscreen,
}

/// How frames are handed to the display.
#[derive(Clone, Copy, Debug, PartialEq, Eq, Structural)]
pub enum PresentMode {
    AutoVsync,
    AutoNoVsync,
    Fifo,
    FifoRelaxed,
    Immediate,
    Mailbox,
}

/// The size of the window's drawing area, in pixels.
#[derive(Clone, Copy, Debug, PartialEq, Eq, Structural)]
pub struct WindowResolution {
    pub width: u32,
    pub height: u32,
}

/// The window, as far as the sandbox sets it up.
#[derive(Clone, Copy, Debug, PartialEq, Eq, Structural)]
pub struct Window {
    pub resolution: WindowResolution,
    pub mode: WindowMode,
    pub present_mode: PresentMode,
    pub cursor_options: CursorOptions,
}

} // verus!
