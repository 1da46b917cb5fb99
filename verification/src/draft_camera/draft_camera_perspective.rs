//! The camera that keys and wheel move.

use vstd::prelude::*;
use crate::draft_camera::draft_camera_orthographic::default_projection;
use crate::draft_camera::draft_camera_orthographic::make_default_projection;
use crate::draft_camera::draft_camera_projection::DraftCameraProjection;
use crate::draft_camera::draft_camera_variant::DraftCameraType;
use crate::draft_camera::pitch_is_safe;
use crate::draft_camera::DraftCamera;
use crate::draft_camera::DraftCameraController;
use crate::input::ElementState;
use crate::input::Key;
use crate::input::PhysicalKey;
use crate::draft_camera::direction_of;
use crate::linear::Vec3;
use crate::scalar::Scalar;

verus! {

/// The bit pattern of 4, the speed of a camera.
pub const DEFAULT_SPEED_BITS: u32 = 0x4080_0000u32;

/// The bit pattern of 0.4, the sensitivity of a camera.
pub const DEFAULT_SENSITIVITY_BITS: u32 = 0x3ECC_CCCDu32;

/// A camera with a position, a yaw and a pitch, moved by its controller.
#[derive(Clone, Copy, Debug, PartialEq, Eq, Structural)]
pub struct DraftCameraPerspective {
    pub camera: DraftCamera,
    pub projection: DraftCameraProjection,
    pub controller: DraftCameraController,
}

impl DraftCameraPerspective {
    /// The camera as it is made: nothing held, nothing pending.
    pub open spec fn fresh(position: Vec3, yaw: Scalar, pitch: Scalar) -> DraftCameraPerspective {
        DraftCameraPerspective {
            camera: DraftCamera { position, yaw, pitch },
            projection: default_projection(),
            controller: DraftCameraController::idle(
                Scalar { bits: DEFAULT_SPEED_BITS },
                Scalar { bits: DEFAULT_SENSITIVITY_BITS },
            ),
        }
    }

    pub fn new(position: Vec3, yaw: Scalar, pitch: Scalar) -> (r: DraftCameraPerspective)
        ensures
            r == DraftCameraPerspective::fresh(position, yaw, pitch),
    {
        DraftCameraPerspective {
            camera: DraftCamera::new(position, yaw, pitch),
            projection: make_default_projection(),
            controller: DraftCameraController::new(
                Scalar { bits: DEFAULT_SPEED_BITS },
                Scalar { bits: DEFAULT_SENSITIVITY_BITS },
            ),
        }
    }

    pub fn position(&self) -> (r: Vec3)
        ensures
            r == self.camera.position,
    {
        self.camera.position
    }

    pub fn camera_type(&self) -> (r: DraftCameraType)
        ensures
            r == DraftCameraType::Perspective,
    {
        DraftCameraType::Perspective
    }

    /// Takes the new size of the surface.
    pub fn update_projection(&mut self, width: u32, height: u32)
        requires
            height > 0,
        ensures
            *final(self) == (DraftCameraPerspective {
                projection: DraftCameraProjection { width, height, ..old(self).projection },
                ..*old(self)
            }),
            final(self).projection.aspect_is(width, height),
    {
        self.projection.resize(width, height);
    }

    /// Takes a keyboard event. Returns whether the key is one that moves the
    /// camera.
    pub fn process_keyboard(
        &mut self,
        physical_key: &PhysicalKey,
        logical_key: &Key,
        state: ElementState,
    ) -> (handled: bool)
        ensures
            handled == direction_of(*physical_key, *logical_key) is Some,
            *final(self) == (DraftCameraPerspective {
                controller: old(self).controller.after_key(*physical_key, *logical_key, state),
                ..*old(self)
            }),
    {
        self.controller.process_keyboard(physical_key, logical_key, state)
    }

    /// Takes a turn of the wheel.
    pub fn process_scroll(&mut self, amount: Scalar) -> (handled: bool)
        ensures
            handled,
            *final(self) == (DraftCameraPerspective {
                controller: old(self).controller.after_scroll(amount),
                ..*old(self)
            }),
    {
        self.controller.process_scroll(amount);
        true
    }

    /// Ends an update; see [`DraftCameraController::update_camera`].
    pub fn update_camera(&mut self, moved: DraftCamera) -> (changed: bool)
        ensures
            changed,
            *final(self) == (DraftCameraPerspective {
                camera: DraftCamera::settled(moved),
                controller: old(self).controller.consumed(),
                ..*old(self)
            }),
            !moved.pitch.nan() ==> pitch_is_safe(final(self).camera.pitch),
    {
        let mut camera = self.camera;
        let mut controller = self.controller;
        controller.update_camera(&mut camera, moved);
        self.camera = camera;
        self.controller = controller;
        true
    }
}

} // verus!
