//! Vectors, rotations and matrices as the scene stores them.
//!
//! These types carry numbers; they do no arithmetic. A matrix keeps its four
//! columns, as the graphics device reads them.

use vstd::prelude::*;
use crate::scalar::Scalar;
use crate::scalar::ONE_BITS;
use crate::scalar::ZERO_BITS;

verus! {

/// A point or direction in space.
#[derive(Clone, Copy, Debug, PartialEq, Eq, Structural)]
pub struct Vec3 {
    pub x: Scalar,
    pub y: Scalar,
    pub z: Scalar,
}

/// A homogeneous point, or one column of a matrix.
#[derive(Clone, Copy, Debug, PartialEq, Eq, Structural)]
pub struct Vec4 {
    pub x: Scalar,
    pub y: Scalar,
    pub z: Scalar,
    pub w: Scalar,
}

/// A rotation, as a quaternion with its real part last.
#[derive(Clone, Copy, Debug, PartialEq, Eq, Structural)]
pub struct Quat {
    pub x: Scalar,
    pub y: Scalar,
    pub z: Scalar,
    pub w: Scalar,
}

/// A 4×4 matrix, column by column.
#[derive(Clone, Copy, Debug, PartialEq, Eq, Structural)]
pub struct Mat4 {
    pub x_axis: Vec4,
    pub y_axis: Vec4,
    pub z_axis: Vec4,
    pub w_axis: Vec4,
}

/// The number zero.
pub open spec fn zero() -> Scalar {
    Scalar { bits: ZERO_BITS }
}

/// The number one.
pub open spec fn one() -> Scalar {
    Scalar { bits: ONE_BITS }
}

impl Vec3 {
    /// The point where all three coordinates are zero.
    pub open spec fn origin() -> Vec3 {
        Vec3 { x: zero(), y: zero(), z: zero() }
    }

    /// The point with one more coordinate behind the three.
    pub open spec fn extended(self, w: Scalar) -> Vec4 {
        Vec4 { x: self.x, y: self.y, z: self.z, w }
    }

    pub fn new(x: Scalar, y: Scalar, z: Scalar) -> (r: Vec3)
        ensures
            r == (Vec3 { x, y, z }),
    {
        Vec3 { x, y, z }
    }

    pub fn zero() -> (r: Vec3)
        ensures
            r == Vec3::origin(),
    {
        Vec3 { x: Scalar::zero(), y: Scalar::zero(), z: Scalar::zero() }
    }

    pub fn extend(self, w: Scalar) -> (r: Vec4)
        ensures
            r == self.extended(w),
    {
        Vec4 { x: self.x, y: self.y, z: self.z, w }
    }
}

impl Vec4 {
    /// The four coordinates in order, as bit patterns.
    pub open spec fn words(self) -> Seq<u32> {
        seq![self.x.bits, self.y.bits, self.z.bits, self.w.bits]
    }

    pub fn new(x: Scalar, y: Scalar, z: Scalar, w: Scalar) -> (r: Vec4)
        ensures
            r == (Vec4 { x, y, z, w }),
    {
        Vec4 { x, y, z, w }
    }
}

impl Quat {
    /// The rotation that turns nothing.
    pub open spec fn identity() -> Quat {
        Quat { x: zero(), y: zero(), z: zero(), w: one() }
    }

    pub fn new(x: Scalar, y: Scalar, z: Scalar, w: Scalar) -> (r: Quat)
        ensures
            r == (Quat { x, y, z, w }),
    {
        Quat { x, y, z, w }
    }

    pub fn no_rotation() -> (r: Quat)
        ensures
            r == Quat::identity(),
    {
        Quat { x: Scalar::zero(), y: Scalar::zero(), z: Scalar::zero(), w: Scalar::one() }
    }
}

impl Mat4 {
    /// The matrix that maps every point to itself.
    pub open spec fn identity() -> Mat4 {
        Mat4 {
            x_axis: Vec4 { x: one(), y: zero(), z: zero(), w: zero() },
            y_axis: Vec4 { x: zero(), y: one(), z: zero(), w: zero() },
            z_axis: Vec4 { x: zero(), y: zero(), z: one(), w: zero() },
            w_axis: Vec4 { x: zero(), y: zero(), z: zero(), w: one() },
        }
    }

    /// The sixteen entries as bit patterns, one column after the other.
    pub open spec fn words(self) -> Seq<u32> {
        self.x_axis.words() + self.y_axis.words() + self.z_axis.words() + self.w_axis.words()
    }

    pub fn from_cols(x_axis: Vec4, y_axis: Vec4, z_axis: Vec4, w_axis: Vec4) -> (r: Mat4)
        ensures
            r == (Mat4 { x_axis, y_axis, z_axis, w_axis }),
    {
        Mat4 { x_axis, y_axis, z_axis, w_axis }
    }

    pub fn unit() -> (r: Mat4)
        ensures
            r == Mat4::identity(),
    {
        let o = Scalar::zero();
        let i = Scalar::one();
        Mat4 {
            x_axis: Vec4 { x: i, y: o, z: o, w: o },
            y_axis: Vec4 { x: o, y: i, z: o, w: o },
            z_axis: Vec4 { x: o, y: o, z: i, w: o },
            w_axis: Vec4 { x: o, y: o, z: o, w: i },
        }
    }
}

/// Appends the four coordinates of `v` to `out`.
pub fn push_words(out: &mut Vec<u32>, v: Vec4)
    ensures
        final(out)@ == old(out)@ + v.words(),
{
    out.push(v.x.bits);
    out.push(v.y.bits);
    out.push(v.z.bits);
    out.push(v.w.bits);
    assert(out@ =~= old(out)@ + v.words());
}

/// Appends the sixteen entries of `m` to `out`, one column after the other.
pub fn push_matrix_words(out: &mut Vec<u32>, m: Mat4)
    ensures
        final(out)@ == old(out)@ + m.words(),
{
    push_words(out, m.x_axis);
    push_words(out, m.y_axis);
    push_words(out, m.z_axis);
    push_words(out, m.w_axis);
    assert(out@ =~= old(out)@ + m.words());
}

} // verus!
