//! The two kinds of camera behind one set of operations.

use vstd::prelude::*;
use crate::draft_camera::direction_of;
use crate::draft_camera::draft_camera_orthographic::DraftCameraOrthographic;
use crate::draft_camera::draft_camera_perspective::DraftCameraPerspective;
use crate::draft_camera::draft_camera_projection::DraftCameraProjection;
use crate::draft_camera::pitch_is_safe;
use crate::draft_camera::DraftCamera;
use crate::input::ElementState;
use crate::input::Key;
use crate::input::PhysicalKey;
use crate::linear::Vec3;
use crate::scalar::Scalar;

verus! {

/// The kind of a camera.
#[derive(Debug, Copy, Clone, PartialEq, Eq, Structural)]
pub enum DraftCameraType {
    Orthographic,
    Perspective,
}

/// A camera of either kind.
#[derive(Clone, Copy, Debug, PartialEq, Eq, Structural)]
pub enum DraftCameraVariant {
    Orthographic(DraftCameraOrthographic),
    Perspective(DraftCameraPerspective),
}

impl DraftCameraVariant {
    /// Where the camera stands.
    pub open spec fn spec_position(self) -> Vec3 {
        match self {
            DraftCameraVariant::Orthographic(c) => c.position,
            DraftCameraVariant::Perspective(c) => c.camera.position,
        }
    }

    /// The camera's projection.
    pub open spec fn projection(self) -> DraftCameraProjection {
        match self {
            DraftCameraVariant::Orthographic(c) => c.projection,
            DraftCameraVariant::Perspective(c) => c.projection,
        }
    }

    /// The camera with another projection and nothing else changed.
    pub open spec fn with_projection(self, projection: DraftCameraProjection) -> DraftCameraVariant {
        match self {
            DraftCameraVariant::Orthographic(c) => DraftCameraVariant::Orthographic(
                DraftCameraOrthographic { projection, ..c },
            ),
            DraftCameraVariant::Perspective(c) => DraftCameraVariant::Perspective(
                DraftCameraPerspective { projection, ..c },
            ),
        }
    }

    /// The camera after the surface took a new size.
    pub open spec fn resized(self, width: u32, height: u32) -> DraftCameraVariant {
        self.with_projection(DraftCameraProjection { width, height, ..self.projection() })
    }

    /// The camera after a keyboard event: only a perspective camera listens.
    pub open spec fn after_key(
        self,
        physical_key: PhysicalKey,
        logical_key: Key,
        state: ElementState,
    ) -> DraftCameraVariant {
        match self {
            DraftCameraVariant::Orthographic(c) => self,
            DraftCameraVariant::Perspective(c) => DraftCameraVariant::Perspective(
                DraftCameraPerspective {
                    controller: c.controller.after_key(physical_key, logical_key, state),
                    ..c
                },
            ),
        }
    }

    /// Whether the camera takes a keyboard event as its own.
    pub open spec fn handles_key(self, physical_key: PhysicalKey, logical_key: Key) -> bool {
        self is Perspective && direction_of(physical_key, logical_key) is Some
    }

    /// The camera after a turn of the wheel: only a perspective camera
    /// listens.
    pub open spec fn after_scroll(self, amount: Scalar) -> DraftCameraVariant {
        match self {
            DraftCameraVariant::Orthographic(c) => self,
            DraftCameraVariant::Perspective(c) => DraftCameraVariant::Perspective(
                DraftCameraPerspective { controller: c.controller.after_scroll(amount), ..c },
            ),
        }
    }

    /// The camera after an update that moved it to `moved`: only a
    /// perspective camera moves.
    pub open spec fn after_update(self, moved: DraftCamera) -> DraftCameraVariant {
        match self {
            DraftCameraVariant::Orthographic(c) => self,
            DraftCameraVariant::Perspective(c) => DraftCameraVariant::Perspective(
                DraftCameraPerspective {
                    camera: DraftCamera::settled(moved),
                    controller: c.controller.consumed(),
                    ..c
                },
            ),
        }
    }

    /// Whether the camera, if it has a pitch, has a safe one.
    pub open spec fn pitch_safe(self) -> bool {
        match self {
            DraftCameraVariant::Orthographic(c) => true,
            DraftCameraVariant::Perspective(c) => pitch_is_safe(c.camera.pitch),
        }
    }

    pub fn camera_type(&self) -> (r: DraftCameraType)
        ensures
            r == DraftCameraType::Orthographic <==> *self is Orthographic,
            r == DraftCameraType::Perspective <==> *self is Perspective,
    {
        match self {
            DraftCameraVariant::Orthographic(c) => c.camera_type(),
            DraftCameraVariant::Perspective(c) => c.camera_type(),
        }
    }

    pub fn position(&self) -> (r: Vec3)
        ensures
            r == self.spec_position(),
    {
        match self {
            DraftCameraVariant::Orthographic(c) => c.position(),
            DraftCameraVariant::Perspective(c) => c.position(),
        }
    }

    pub fn get_projection(&self) -> (r: DraftCameraProjection)
        ensures
            r == self.projection(),
    {
        match self {
            DraftCameraVariant::Orthographic(c) => c.projection,
            DraftCameraVariant::Perspective(c) => c.projection,
        }
    }

    /// Takes the new size of the surface.
    pub fn update_projection(&mut self, width: u32, height: u32)
        requires
            height > 0,
        ensures
            *final(self) == old(self).resized(width, height),
            final(self).projection().aspect_is(width, height),
    {
        match *self {
            DraftCameraVariant::Orthographic(mut c) => {
                c.update_projection(width, height);
                *self = DraftCameraVariant::Orthographic(c);
            },
            DraftCameraVariant::Perspective(mut c) => {
                c.update_projection(width, height);
                *self = DraftCameraVariant::Perspective(c);
            },
        }
    }

    /// Takes a keyboard event. Returns whether the camera took it as its own.
    pub fn process_keyboard(
        &mut self,
        physical_key: &PhysicalKey,
        logical_key: &Key,
        state: ElementState,
    ) -> (handled: bool)
        ensures
            handled == old(self).handles_key(*physical_key, *logical_key),
            *final(self) == old(self).after_key(*physical_key, *logical_key, state),
    {
        match *self {
            DraftCameraVariant::Orthographic(c) => false,
            DraftCameraVariant::Perspective(mut c) => {
                let handled = c.process_keyboard(physical_key, logical_key, state);
                *self = DraftCameraVariant::Perspective(c);
                handled
            },
        }
    }

    /// Takes a turn of the wheel. Returns whether the camera listens to it.
    pub fn process_scroll(&mut self, amount: Scalar) -> (handled: bool)
        ensures
            handled == (*old(self) is Perspective),
            *final(self) == old(self).after_scroll(amount),
    {
        match *self {
            DraftCameraVariant::Orthographic(c) => false,
            DraftCameraVariant::Perspective(mut c) => {
                let handled = c.process_scroll(amount);
                *self = DraftCameraVariant::Perspective(c);
                handled
            },
        }
    }

    /// Ends an update. Returns whether the camera is one that moves.
    pub fn update_camera(&mut self, moved: DraftCamera) -> (changed: bool)
        ensures
            changed == (*old(self) is Perspective),
            *final(self) == old(self).after_update(moved),
            !moved.pitch.nan() ==> final(self).pitch_safe(),
    {
        match *self {
            DraftCameraVariant::Orthographic(c) => false,
            DraftCameraVariant::Perspective(mut c) => {
                let changed = c.update_camera(moved);
                *self = DraftCameraVariant::Perspective(c);
                changed
            },
        }
    }
}

} // verus!
