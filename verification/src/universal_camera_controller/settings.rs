use vstd::prelude::*;

verus! {

/// How the camera moves.
#[derive(Clone, Copy, Debug, PartialEq, Eq, Structural)]
pub struct UniCamSettings {
    /// Length units for each second that a movement key is held.
    pub movement_speed: u32,
}

impl UniCamSettings {
    /// Seven world units a second.
    pub open spec fn spec_default() -> UniCamSettings {
        UniCamSettings { movement_speed: 7_000_000 }
    }
}

impl Default for UniCamSettings {
    fn default() -> (settings: Self)
        ensures
            settings == UniCamSettings::spec_default(),
    {
        UniCamSettings { movement_speed: 7_000_000 }
    }
}

} // verus!
