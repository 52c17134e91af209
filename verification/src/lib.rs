//! The interactive core of a first-person construction sandbox, without an
//! engine: a catalog of building pieces, the mode machine and the placement
//! engine that preview a piece in front of the camera, bring it onto a grid,
//! turn it and commit copies of it, and the camera controller that supplies
//! the viewpoint.
//!
//! Everything is a plain value. Each subsystem holds its whole state in one
//! struct and advances it by one tick at a time, from the input of a frame
//! to what the frame did; whoever runs the frame loop gathers the input and
//! draws what comes out.
//!
//! Numbers are exact. A length is a whole number of length units, an angle a
//! whole number of angle units, a frame time a whole number of microseconds,
//! pointer and wheel travel whole thousandths of a pixel or a line; the
//! scales stand in [`math`] and [`input`].

pub mod building;
pub mod events;
pub mod input;
pub mod main_menu;
pub mod math;
pub mod settings;
pub mod state;
pub mod universal_camera_controller;
pub mod window;
