//! The cameras of a renderer and the one among them that is in use.

use vstd::prelude::*;
use crate::draft_camera::draft_camera_orthographic::DraftCameraOrthographic;
use crate::draft_camera::draft_camera_perspective::DraftCameraPerspective;
use crate::draft_camera::draft_camera_uniform::DraftCameraUniform;
use crate::draft_camera::draft_camera_uniform::TEN_BITS;
use crate::draft_camera::draft_camera_variant::DraftCameraVariant;
use crate::draft_camera::DraftCamera;
use crate::input::ElementState;
use crate::input::Key;
use crate::input::KeyCode;
use crate::input::PhysicalKey;
use crate::linear::zero;
use crate::linear::Mat4;
use crate::linear::Vec3;
use crate::scalar::Scalar;

verus! {

/// The bit pattern of a quarter turn to the right: the yaw with which a
/// camera on the positive z axis looks at the origin.
pub const NEG_FRAC_PI_2_BITS: u32 = 0xBFC9_0FDBu32;

/// The place from which both cameras of a new manager look at the origin.
pub open spec fn default_position() -> Vec3 {
    Vec3 { x: zero(), y: zero(), z: Scalar { bits: TEN_BITS } }
}

/// The cameras of a new manager: an orthographic one, then a perspective one.
pub open spec fn default_cameras() -> Seq<DraftCameraVariant> {
    seq![
        DraftCameraVariant::Orthographic(
            DraftCameraOrthographic::new_spec(default_position(), Vec3::origin()),
        ),
        DraftCameraVariant::Perspective(
            DraftCameraPerspective::fresh(
                default_position(),
                Scalar { bits: NEG_FRAC_PI_2_BITS },
                zero(),
            ),
        ),
    ]
}

/// The camera that a key selects, if it is one of the reserved keys.
pub open spec fn selection_of(physical_key: PhysicalKey) -> Option<usize> {
    match physical_key {
        PhysicalKey::Code(KeyCode::Numpad2) | PhysicalKey::Code(KeyCode::Digit2) => Some(0usize),
        PhysicalKey::Code(KeyCode::Numpad3) | PhysicalKey::Code(KeyCode::Digit3) => Some(1usize),
        _ => None,
    }
}

/// The index in use after a request to use `index`: a request for a camera
/// that is not there changes nothing.
pub open spec fn selected(count: nat, active: int, index: usize) -> int {
    if index < count {
        index as int
    } else {
        active
    }
}

/// The index in use after a key: see [`selection_of`].
pub open spec fn active_after_key(count: nat, active: int, physical_key: PhysicalKey) -> int {
    match selection_of(physical_key) {
        Some(index) => selected(count, active, index),
        None => active,
    }
}

/// A list of cameras, one of which is in use.
pub struct DraftCameraManager {
    camera: Vec<DraftCameraVariant>,
    active_camera: usize,
}

impl DraftCameraManager {
    /// The cameras, in order.
    pub closed spec fn cameras(&self) -> Seq<DraftCameraVariant> {
        self.camera@
    }

    /// The index of the camera in use.
    pub closed spec fn active_index(&self) -> int {
        self.active_camera as int
    }

    /// There is at least one camera, and the one in use is among them.
    pub open spec fn well_formed(&self) -> bool {
        0 <= self.active_index() < self.cameras().len()
    }

    /// The camera in use.
    pub open spec fn active(&self) -> DraftCameraVariant {
        self.cameras()[self.active_index()]
    }

    /// The orthographic and the perspective camera, the first in use.
    pub fn new() -> (r: DraftCameraManager)
        ensures
            r.well_formed(),
            r.cameras() == default_cameras(),
            r.active_index() == 0,
    {
        let position = Vec3::new(Scalar::zero(), Scalar::zero(), Scalar { bits: TEN_BITS });
        let camera = vec![
            DraftCameraVariant::Orthographic(DraftCameraOrthographic::new(position, Vec3::zero())),
            DraftCameraVariant::Perspective(
                DraftCameraPerspective::new(
                    position,
                    Scalar { bits: NEG_FRAC_PI_2_BITS },
                    Scalar::zero(),
                ),
            ),
        ];
        assert(camera@ =~= default_cameras());
        DraftCameraManager { camera, active_camera: 0 }
    }

    /// A manager of the given cameras, the first in use; `None` for an empty
    /// list.
    pub fn with_cameras(cameras: Vec<DraftCameraVariant>) -> (r: Option<DraftCameraManager>)
        ensures
            r is Some <==> cameras@.len() > 0,
            r is Some ==> r->Some_0.well_formed(),
            r is Some ==> r->Some_0.cameras() == cameras@,
            r is Some ==> r->Some_0.active_index() == 0,
    {
        if cameras.len() == 0 {
            None
        } else {
            Some(DraftCameraManager { camera: cameras, active_camera: 0 })
        }
    }

    /// How many cameras there are.
    pub fn len(&self) -> (n: usize)
        ensures
            n == self.cameras().len(),
    {
        self.camera.len()
    }

    /// The index of the camera in use.
    pub fn active_camera_index(&self) -> (i: usize)
        ensures
            i == self.active_index(),
    {
        self.active_camera
    }

    /// The camera at `index`, if there is one.
    pub fn camera(&self, index: usize) -> (r: Option<DraftCameraVariant>)
        ensures
            r == (if index < self.cameras().len() {
                Some(self.cameras()[index as int])
            } else {
                None
            }),
    {
        if index < self.camera.len() {
            Some(self.camera[index])
        } else {
            None
        }
    }

    /// Puts the camera at `index` in use. An index at which there is no
    /// camera is passed over in silence. No camera is changed.
    pub fn set_active_camera(&mut self, index: usize)
        requires
            old(self).well_formed(),
        ensures
            final(self).well_formed(),
            final(self).cameras() == old(self).cameras(),
            final(self).active_index() == selected(
                old(self).cameras().len(),
                old(self).active_index(),
                index,
            ),
    {
        if index < self.camera.len() {
            self.active_camera = index;
        }
    }

    /// The camera in use, to be changed.
    pub fn active_camera(&mut self) -> (camera: &mut DraftCameraVariant)
        requires
            old(self).well_formed(),
        ensures
            *camera == old(self).active(),
            final(self).cameras() == old(self).cameras().update(
                old(self).active_index(),
                *final(camera),
            ),
            final(self).active_index() == old(self).active_index(),
    {
        &mut self.camera[self.active_camera]
    }

    /// Tells every camera, in use or not, the new size of the surface.
    pub fn resize_camera(&mut self, width: u32, height: u32)
        requires
            old(self).well_formed(),
            height > 0,
        ensures
            final(self).well_formed(),
            final(self).active_index() == old(self).active_index(),
            final(self).cameras().len() == old(self).cameras().len(),
            forall|i: int|
                0 <= i < final(self).cameras().len() ==> (#[trigger] final(self).cameras()[i])
                    == old(self).cameras()[i].resized(width, height),
            forall|i: int|
                0 <= i < final(self).cameras().len() ==> (#[trigger] final(self).cameras()[i]).projection().aspect_is(width, height),
    {
        let mut i: usize = 0;
        while i < self.camera.len()
            invariant
                height > 0,
                i <= self.camera.len(),
                self.camera.len() == old(self).camera.len(),
                self.active_camera == old(self).active_camera,
                forall|j: int|
                    0 <= j < i ==> (#[trigger] self.camera@[j]) == old(self).camera@[j].resized(
                        width,
                        height,
                    ),
                forall|j: int|
                    0 <= j < i ==> (#[trigger] self.camera@[j]).projection().aspect_is(
                        width,
                        height,
                    ),
                forall|j: int| i <= j < self.camera.len() ==> self.camera@[j] == old(self).camera@[j],
            decreases self.camera.len() - i,
        {
            let mut camera = self.camera[i];
            camera.update_projection(width, height);
            self.camera.set(i, camera);
            i += 1;
        }
    }

    /// Writes the camera in use into `camera_uniform`: where it stands, and
    /// `camera_matrix`, the product of its projection and view matrices.
    pub fn update_view_proj(&self, camera_uniform: &mut DraftCameraUniform, camera_matrix: Mat4)
        requires
            self.well_formed(),
        ensures
            *final(camera_uniform) == DraftCameraUniform::of(
                self.active().spec_position(),
                camera_matrix,
            ),
    {
        let position = self.camera[self.active_camera].position();
        camera_uniform.update_view_proj(position, camera_matrix);
    }

    /// Takes a keyboard event.
    ///
    /// A key that selects a camera does so first. Then the camera in use
    /// takes the event, and no other camera hears of it. Returns whether
    /// that camera took the event as its own.
    pub fn process_keyboard(
        &mut self,
        physical_key: &PhysicalKey,
        logical_key: &Key,
        state: ElementState,
    ) -> (handled: bool)
        requires
            old(self).well_formed(),
        ensures
            final(self).well_formed(),
            final(self).active_index() == active_after_key(
                old(self).cameras().len(),
                old(self).active_index(),
                *physical_key,
            ),
            final(self).cameras() == old(self).cameras().update(
                final(self).active_index(),
                old(self).cameras()[final(self).active_index()].after_key(
                    *physical_key,
                    *logical_key,
                    state,
                ),
            ),
            handled == old(self).cameras()[final(self).active_index()].handles_key(
                *physical_key,
                *logical_key,
            ),
    {
        match physical_key {
            PhysicalKey::Code(KeyCode::Numpad2) | PhysicalKey::Code(KeyCode::Digit2) => {
                self.set_active_camera(0)
            },
            PhysicalKey::Code(KeyCode::Numpad3) | PhysicalKey::Code(KeyCode::Digit3) => {
                self.set_active_camera(1)
            },
            _ => {},
        }
        let mut camera = self.camera[self.active_camera];
        let handled = camera.process_keyboard(physical_key, logical_key, state);
        self.camera.set(self.active_camera, camera);
        handled
    }

    /// Takes a turn of the wheel for the camera in use. Returns whether that
    /// camera listens to the wheel.
    pub fn process_scroll(&mut self, amount: Scalar) -> (handled: bool)
        requires
            old(self).well_formed(),
        ensures
            final(self).well_formed(),
            final(self).active_index() == old(self).active_index(),
            final(self).cameras() == old(self).cameras().update(
                old(self).active_index(),
                old(self).active().after_scroll(amount),
            ),
            handled == old(self).active() is Perspective,
    {
        let mut camera = self.camera[self.active_camera];
        let handled = camera.process_scroll(amount);
        self.camera.set(self.active_camera, camera);
        handled
    }

    /// Ends an update of the camera in use; see
    /// [`DraftCameraVariant::update_camera`].
    pub fn update_camera(&mut self, moved: DraftCamera) -> (changed: bool)
        requires
            old(self).well_formed(),
        ensures
            final(self).well_formed(),
            final(self).active_index() == old(self).active_index(),
            final(self).cameras() == old(self).cameras().update(
                old(self).active_index(),
                old(self).active().after_update(moved),
            ),
            changed == old(self).active() is Perspective,
            !moved.pitch.nan() ==> final(self).active().pitch_safe(),
    {
        let mut camera = self.camera[self.active_camera];
        let changed = camera.update_camera(moved);
        self.camera.set(self.active_camera, camera);
        changed
    }
}

} // verus!
