use vstd::prelude::*;

verus! {

/// The least vertical sensitivity that the settings offer.
pub const MIN_SENSITIVITY_VERTICAL: u32 = 28_648;

/// The least horizontal sensitivity that the settings offer.
pub const MIN_SENSITIVITY_HORIZONTAL: u32 = 42_972;

/// The greatest sensitivity that the settings offer, along either axis.
pub const MAX_SENSITIVITY: u32 = 286_479;

/// How far the view turns for the pointer's travel: angle units for each
/// thousandth of a pixel.
#[derive(Clone, Copy, Debug, PartialEq, Eq, Structural)]
pub struct MouseSensitivity {
    pub sensitivity_vertical: u32,
    pub sensitivity_horizontal: u32,
}

impl MouseSensitivity {
    /// One milliradian for each pixel of vertical travel, one and a half for
    /// each pixel of horizontal travel.
    pub open spec fn spec_default() -> MouseSensitivity {
        MouseSensitivity { sensitivity_vertical: 57_296, sensitivity_horizontal: 85_944 }
    }
}

impl Default for MouseSensitivity {
    fn default() -> (sensitivity: Self)
        ensures
            sensitivity == MouseSensitivity::spec_default(),
    {
        MouseSensitivity { sensitivity_vertical: 57_296, sensitivity_horizontal: 85_944 }
    }
}

} // verus!
