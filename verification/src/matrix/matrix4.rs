//! A 4x4 homogeneous matrix of basis columns `i`, `j`, `k`, `w`.

use vstd::prelude::*;
use crate::num_traits::{Zero, One, Two, NegOne, Arith, SinCos, div_or_zero, div_or_zero_s};
use crate::matrix::Unit;
use crate::vector::AxisUnits;
use crate::vector::vec3::Vec3;
use crate::vector::vec4::Vec4;

verus! {

#[derive(Debug, PartialEq, PartialOrd, Clone, Copy)]
pub struct Matrix4<T> {
    pub i: Vec4<T>,
    pub j: Vec4<T>,
    pub k: Vec4<T>,
    pub w: Vec4<T>,
}

impl<T: Copy> Matrix4<T> {
    pub fn new(i: Vec4<T>, j: Vec4<T>, k: Vec4<T>, w: Vec4<T>) -> (r: Self)
        ensures
            r == (Matrix4 { i, j, k, w }),
    {
        Matrix4 { i, j, k, w }
    }

    /// Build from rows instead of columns.
    pub open spec fn row_major_new_s(x: Vec4<T>, y: Vec4<T>, z: Vec4<T>, w: Vec4<T>) -> Self {
        Matrix4 {
            i: Vec4 { x: x.x, y: y.x, z: z.x, w: w.x },
            j: Vec4 { x: x.y, y: y.y, z: z.y, w: w.y },
            k: Vec4 { x: x.z, y: y.z, z: z.z, w: w.z },
            w: Vec4 { x: x.w, y: y.w, z: z.w, w: w.w },
        }
    }

    pub fn row_major_new(x: Vec4<T>, y: Vec4<T>, z: Vec4<T>, w: Vec4<T>) -> (r: Self)
        ensures
            r == Self::row_major_new_s(x, y, z, w),
    {
        Matrix4 {
            i: Vec4 { x: x.x, y: y.x, z: z.x, w: w.x },
            j: Vec4 { x: x.y, y: y.y, z: z.y, w: w.y },
            k: Vec4 { x: x.z, y: y.z, z: z.z, w: w.z },
            w: Vec4 { x: x.w, y: y.w, z: z.w, w: w.w },
        }
    }
}

impl<T: Zero + One + Copy> Matrix4<T> {
    /// The homogeneous matrix that translates by `shift`.
    pub fn offset(shift: Vec3<T>) -> (r: Self)
        ensures
            r == shift.to_displacement_matrix_s(),
    {
        Matrix4 {
            i: Vec4::unit_x(),
            j: Vec4::unit_y(),
            k: Vec4::unit_z(),
            w: Vec4 { x: shift.x, y: shift.y, z: shift.z, w: T::one() },
        }
    }
}

impl<T: Arith> Matrix4<T> {
    /// The columnwise sum.
    pub open spec fn add_s(self, rhs: Self) -> Self {
        Matrix4 {
            i: self.i.add_s(rhs.i),
            j: self.j.add_s(rhs.j),
            k: self.k.add_s(rhs.k),
            w: self.w.add_s(rhs.w),
        }
    }

    pub fn add(self, rhs: Self) -> (r: Self)
        ensures
            r == self.add_s(rhs),
    {
        Matrix4 {
            i: self.i.add(rhs.i),
            j: self.j.add(rhs.j),
            k: self.k.add(rhs.k),
            w: self.w.add(rhs.w),
        }
    }

    /// The matrix applied to a vector: the linear combination of the columns.
    pub open spec fn mul_vec_s(self, rhs: Vec4<T>) -> Vec4<T> {
        self.i.scale_s(rhs.x).add_s(self.j.scale_s(rhs.y)).add_s(self.k.scale_s(rhs.z)).add_s(
            self.w.scale_s(rhs.w),
        )
    }

    pub fn mul_vec(self, rhs: Vec4<T>) -> (r: Vec4<T>)
        ensures
            r == self.mul_vec_s(rhs),
    {
        self.i.scale(rhs.x).add(self.j.scale(rhs.y)).add(self.k.scale(rhs.z)).add(
            self.w.scale(rhs.w),
        )
    }

    /// The matrix product: this matrix applied to each column of the other.
    pub open spec fn mul_s(self, rhs: Self) -> Self {
        Matrix4 {
            i: self.mul_vec_s(rhs.i),
            j: self.mul_vec_s(rhs.j),
            k: self.mul_vec_s(rhs.k),
            w: self.mul_vec_s(rhs.w),
        }
    }

    pub fn mul(self, rhs: Self) -> (r: Self)
        ensures
            r == self.mul_s(rhs),
    {
        Matrix4 {
            i: self.mul_vec(rhs.i),
            j: self.mul_vec(rhs.j),
            k: self.mul_vec(rhs.k),
            w: self.mul_vec(rhs.w),
        }
    }
}

impl<T: Arith + SinCos + Two + NegOne> Matrix4<T> {
    /// The right-handed perspective projection matrix for a field of view in
    /// degrees, an aspect ratio, and the near and far clip distances.
    ///
    /// Every division follows the library's degenerate-input policy: a zero
    /// divisor (a flat field of view, a zero aspect ratio, equal near and far
    /// planes) yields zero in that entry rather than an error.
    pub open spec fn new_perspective_s(fov: T, aspect: T, near: T, far: T) -> Self {
        let half = div_or_zero_s(fov.to_radians_s(), T::two_s());
        let f = div_or_zero_s(half.cos_s(), half.sin_s());
        let depth = near.sub_s(far);
        Self::row_major_new_s(
            Vec4 {
                x: div_or_zero_s(f, aspect),
                y: T::zero_s(),
                z: T::zero_s(),
                w: T::zero_s(),
            },
            Vec4 { x: T::zero_s(), y: f, z: T::zero_s(), w: T::zero_s() },
            Vec4 {
                x: T::zero_s(),
                y: T::zero_s(),
                z: div_or_zero_s(far.add_s(near), depth),
                w: T::neg_one_s(),
            },
            Vec4 {
                x: T::zero_s(),
                y: T::zero_s(),
                z: div_or_zero_s(T::two_s().mul_s(far).mul_s(near), depth),
                w: T::zero_s(),
            },
        )
    }

    pub fn new_perspective(fov: T, aspect: T, near: T, far: T) -> (r: Self)
        ensures
            r == Self::new_perspective_s(fov, aspect, near, far),
    {
        let half = div_or_zero(fov.to_radians(), T::two());
        let sc = half.sin_cos();
        let f = div_or_zero(sc.1, sc.0);
        let depth = near.sub(far);
        Self::row_major_new(
            Vec4 { x: div_or_zero(f, aspect), y: T::zero(), z: T::zero(), w: T::zero() },
            Vec4 { x: T::zero(), y: f, z: T::zero(), w: T::zero() },
            Vec4 {
                x: T::zero(),
                y: T::zero(),
                z: div_or_zero(far.add(near), depth),
                w: T::neg_one(),
            },
            Vec4 {
                x: T::zero(),
                y: T::zero(),
                z: div_or_zero(T::two().mul(far).mul(near), depth),
                w: T::zero(),
            },
        )
    }
}

impl<T: Zero + One> Unit for Matrix4<T> {
    open spec fn unit_s() -> Self {
        Matrix4 {
            i: Vec4::<T>::unit_x_s(),
            j: Vec4::<T>::unit_y_s(),
            k: Vec4::<T>::unit_z_s(),
            w: Vec4::<T>::unit_w_s(),
        }
    }

    fn unit() -> Self {
        Matrix4 { i: Vec4::unit_x(), j: Vec4::unit_y(), k: Vec4::unit_z(), w: Vec4::unit_w() }
    }
}

} // verus!
