use crate::math::{CameraTransform, Vec3};
use vstd::prelude::*;

verus! {

/// Holds the entity that the camera looks at, by the number under which
/// whoever casts the ray knows it.
#[derive(Clone, Copy, Debug, PartialEq, Eq, Structural)]
pub struct RayCaster(pub Option<u64>);

impl Default for RayCaster {
    fn default() -> (caster: Self)
        ensures
            caster.0.is_none(),
    {
        RayCaster(None)
    }
}

/// A half-line: where it starts, and the direction in which it runs.
#[derive(Clone, Copy, Debug, PartialEq, Eq, Structural)]
pub struct Ray3d {
    pub origin: Vec3,
    pub direction: Vec3,
}

/// The ray to cast for the camera: from where it stands, along its line of
/// sight. There is one only where there is exactly one camera.
pub fn uni_cam_ray_cast(cameras: &Vec<CameraTransform>) -> (ray: Option<Ray3d>)
    ensures
        ray == if cameras@.len() == 1 {
            Some(Ray3d { origin: cameras@[0].translation, direction: cameras@[0].forward })
        } else {
            None
        },
{
    if cameras.len() == 1 {
        let camera_transform = cameras[0];
        let origin = camera_transform.translation;
        let direction = camera_transform.forward;
        Some(Ray3d { origin, direction })
    } else {
        None
    }
}

} // verus!
