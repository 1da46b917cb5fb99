//! The camera that stays where it is and looks at a fixed point.

use vstd::prelude::*;
use crate::draft_camera::draft_camera_projection::DraftCameraProjection;
use crate::draft_camera::draft_camera_variant::DraftCameraType;
use crate::linear::Vec3;
use crate::scalar::Scalar;

verus! {

/// The width of the surface that a camera is made for.
pub const DEFAULT_WIDTH: u32 = 800u32;

/// The height of the surface that a camera is made for.
pub const DEFAULT_HEIGHT: u32 = 600u32;

/// The bit pattern of 45, the vertical field of view in degrees.
pub const DEFAULT_FOV_Y_BITS: u32 = 0x4234_0000u32;

/// The bit pattern of 0.1, the near clip plane.
pub const DEFAULT_Z_NEAR_BITS: u32 = 0x3DCC_CCCDu32;

/// The bit pattern of 100, the far clip plane.
pub const DEFAULT_Z_FAR_BITS: u32 = 0x42C8_0000u32;

/// The projection that a camera starts with.
pub open spec fn default_projection() -> DraftCameraProjection {
    DraftCameraProjection {
        width: DEFAULT_WIDTH,
        height: DEFAULT_HEIGHT,
        fov_y: Scalar { bits: DEFAULT_FOV_Y_BITS },
        z_near: Scalar { bits: DEFAULT_Z_NEAR_BITS },
        z_far: Scalar { bits: DEFAULT_Z_FAR_BITS },
    }
}

/// See [`default_projection`].
pub fn make_default_projection() -> (r: DraftCameraProjection)
    ensures
        r == default_projection(),
{
    DraftCameraProjection::new(
        DEFAULT_WIDTH,
        DEFAULT_HEIGHT,
        Scalar { bits: DEFAULT_FOV_Y_BITS },
        Scalar { bits: DEFAULT_Z_NEAR_BITS },
        Scalar { bits: DEFAULT_Z_FAR_BITS },
    )
}

/// A camera at `position` that looks at `target`. No input moves it.
#[derive(Clone, Copy, Debug, PartialEq, Eq, Structural)]
pub struct DraftCameraOrthographic {
    pub position: Vec3,
    pub target: Vec3,
    pub projection: DraftCameraProjection,
}

impl DraftCameraOrthographic {
    /// The camera as it is made.
    pub open spec fn new_spec(position: Vec3, target: Vec3) -> DraftCameraOrthographic {
        DraftCameraOrthographic { position, target, projection: default_projection() }
    }

    pub fn new(position: Vec3, target: Vec3) -> (r: DraftCameraOrthographic)
        ensures
            r == DraftCameraOrthographic::new_spec(position, target),
    {
        DraftCameraOrthographic { position, target, projection: make_default_projection() }
    }

    pub fn position(&self) -> (r: Vec3)
        ensures
            r == self.position,
    {
        self.position
    }

    pub fn camera_type(&self) -> (r: DraftCameraType)
        ensures
            r == DraftCameraType::Orthographic,
    {
        DraftCameraType::Orthographic
    }

    /// Takes the new size of the surface.
    pub fn update_projection(&mut self, width: u32, height: u32)
        requires
            height > 0,
        ensures
            *final(self) == (DraftCameraOrthographic {
                projection: DraftCameraProjection { width, height, ..old(self).projection },
                ..*old(self)
            }),
            final(self).projection.aspect_is(width, height),
    {
        self.projection.resize(width, height);
    }
}

} // verus!
