//! The projection of a camera.

use vstd::prelude::*;
use crate::scalar::Scalar;

verus! {

/// What a perspective projection is made from: the size of the surface,
/// whose quotient is the aspect ratio, the vertical field of view in
/// degrees, and the two clip planes.
///
/// Only a resize changes it, and only in the surface's size.
#[derive(Clone, Copy, Debug, PartialEq, Eq, Structural)]
pub struct DraftCameraProjection {
    pub width: u32,
    pub height: u32,
    pub fov_y: Scalar,
    pub z_near: Scalar,
    pub z_far: Scalar,
}

impl DraftCameraProjection {
    /// Whether the aspect ratio is `width / height`, as a fraction.
    pub open spec fn aspect_is(self, width: u32, height: u32) -> bool {
        self.height > 0 && height > 0 && self.width * height == self.height * width
    }

    pub fn new(width: u32, height: u32, fov_y: Scalar, z_near: Scalar, z_far: Scalar) -> (r:
        DraftCameraProjection)
        requires
            height > 0,
        ensures
            r == (DraftCameraProjection { width, height, fov_y, z_near, z_far }),
            r.aspect_is(width, height),
    {
        assert(width * height == height * width) by (nonlinear_arith);
        DraftCameraProjection { width, height, fov_y, z_near, z_far }
    }

    /// Takes the new size of the surface.
    pub fn resize(&mut self, width: u32, height: u32)
        requires
            height > 0,
        ensures
            *final(self) == (DraftCameraProjection { width, height, ..*old(self) }),
            final(self).aspect_is(width, height),
    {
        self.width = width;
        self.height = height;
        assert(width * height == height * width) by (nonlinear_arith);
    }
}

} // verus!
