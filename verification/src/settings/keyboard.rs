use crate::input::KeyCode;
use vstd::prelude::*;

verus! {

/// The key that stands for each action.
#[derive(Clone, Copy, Debug, PartialEq, Eq, Structural)]
pub struct KeyboardBindings {
    // Movement of the camera
    pub forward: KeyCode,
    pub backward: KeyCode,
    pub left: KeyCode,
    pub right: KeyCode,
    pub jump: KeyCode,
    pub crouch: KeyCode,
    // Building
    pub start_building: KeyCode,
    pub stop_building: KeyCode,
}

impl KeyboardBindings {
    /// The bindings that a fresh installation has.
    pub open spec fn spec_default() -> KeyboardBindings {
        KeyboardBindings {
            forward: KeyCode::KeyW,
            backward: KeyCode::KeyS,
            left: KeyCode::KeyA,
            right: KeyCode::KeyD,
            jump: KeyCode::Space,
            crouch: KeyCode::ControlLeft,
            start_building: KeyCode::KeyB,
            stop_building: KeyCode::KeyN,
        }
    }
}

impl Default for KeyboardBindings {
    fn default() -> (bindings: Self)
        ensures
            bindings == KeyboardBindings::spec_default(),
    {
        KeyboardBindings {
            forward: KeyCode::KeyW,
            backward: KeyCode::KeyS,
            left: KeyCode::KeyA,
            right: KeyCode::KeyD,
            jump: KeyCode::Space,
            crouch: KeyCode::ControlLeft,
            start_building: KeyCode::KeyB,
            stop_building: KeyCode::KeyN,
        }
    }
}

} // verus!
