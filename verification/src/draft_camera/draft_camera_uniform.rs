//! The record of the camera that the vertex stage reads.

use vstd::prelude::*;
use crate::bytes::in_memory;
use crate::bytes::words_to_bytes;
use crate::linear::one;
use crate::linear::push_matrix_words;
use crate::linear::push_words;
use crate::linear::zero;
use crate::linear::Mat4;
use crate::linear::Vec3;
use crate::linear::Vec4;
use crate::scalar::Scalar;

verus! {

/// The bit pattern of the number ten.
pub const TEN_BITS: u32 = 0x4120_0000u32;

/// The bytes of the record: a homogeneous point and a 4×4 matrix.
pub const CAMERA_UNIFORM_SIZE: u64 = 80u64;

/// Where the camera stands, as a homogeneous point, and the product of its
/// projection and view matrices. It is written once per frame and never read
/// back.
#[derive(Clone, Copy, Debug, PartialEq, Eq, Structural)]
pub struct DraftCameraUniform {
    pub view_position: Vec4,
    pub view_proj: Mat4,
}

impl DraftCameraUniform {
    /// The record before any camera was written to it.
    pub open spec fn initial() -> DraftCameraUniform {
        DraftCameraUniform {
            view_position: Vec4 { x: zero(), y: zero(), z: Scalar { bits: TEN_BITS }, w: one() },
            view_proj: Mat4::identity(),
        }
    }

    /// The record of a camera at `position` with the product `matrix`.
    pub open spec fn of(position: Vec3, matrix: Mat4) -> DraftCameraUniform {
        DraftCameraUniform { view_position: position.extended(one()), view_proj: matrix }
    }

    /// The twenty words of the record: the point, then the matrix column by
    /// column.
    pub open spec fn words(self) -> Seq<u32> {
        self.view_position.words() + self.view_proj.words()
    }

    pub fn new() -> (r: DraftCameraUniform)
        ensures
            r == DraftCameraUniform::initial(),
    {
        DraftCameraUniform {
            view_position: Vec4 {
                x: Scalar::zero(),
                y: Scalar::zero(),
                z: Scalar { bits: TEN_BITS },
                w: Scalar::one(),
            },
            view_proj: Mat4::unit(),
        }
    }

    /// Overwrites the record with a camera's position and matrix.
    pub fn update_view_proj(&mut self, camera_position: Vec3, camera_matrix: Mat4)
        ensures
            *final(self) == DraftCameraUniform::of(camera_position, camera_matrix),
    {
        self.view_position = camera_position.extend(Scalar::one());
        self.view_proj = camera_matrix;
    }

    /// The record as the bytes that the uniform buffer is filled with.
    pub fn to_bytes(&self) -> (bytes: Vec<u8>)
        ensures
            in_memory(self.words(), bytes@),
            bytes@.len() == CAMERA_UNIFORM_SIZE,
    {
        let mut words: Vec<u32> = Vec::new();
        push_words(&mut words, self.view_position);
        push_matrix_words(&mut words, self.view_proj);
        assert(words@ =~= self.words());
        words_to_bytes(&words)
    }
}

} // verus!
