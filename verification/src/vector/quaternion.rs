//! Quaternions, generic over the scalar.
//!
//! A unit quaternion stands for a rotation; rotating a vector is the sandwich
//! product `q * v * conjugate(q)` (see [`crate::vector::vec3::rotated_s`]).

use vstd::prelude::*;
use crate::num_traits::{Zero, One, Two, Arith, Sqrt, SinCos, div_or_zero, div_or_zero_s};
use crate::vector::{AxisUnits, Vector};
use crate::vector::vec2::Vec2;
use crate::vector::vec3::Vec3;
use crate::vector::vec4::Vec4;
use crate::matrix::Unit;

verus! {

#[derive(Debug, PartialEq, PartialOrd, Clone, Copy)]
pub struct Quaternion<T> {
    pub x: T,
    pub y: T,
    pub z: T,
    pub w: T,
}

/// The Hamilton product of two quaternions, componentwise over the scalar's
/// own operations.
pub open spec fn qmul_s<T: Arith>(a: Quaternion<T>, b: Quaternion<T>) -> Quaternion<T> {
    Quaternion {
        x: a.w.mul_s(b.x).add_s(a.x.mul_s(b.w)).add_s(a.y.mul_s(b.z)).sub_s(a.z.mul_s(b.y)),
        y: a.w.mul_s(b.y).sub_s(a.x.mul_s(b.z)).add_s(a.y.mul_s(b.w)).add_s(a.z.mul_s(b.x)),
        z: a.w.mul_s(b.z).add_s(a.x.mul_s(b.y)).sub_s(a.y.mul_s(b.x)).add_s(a.z.mul_s(b.w)),
        w: a.w.mul_s(b.w).sub_s(a.x.mul_s(b.x)).sub_s(a.y.mul_s(b.y)).sub_s(a.z.mul_s(b.z)),
    }
}

impl<T: Copy> Quaternion<T> {
    pub fn new(x: T, y: T, z: T, w: T) -> (r: Self)
        ensures
            r == (Quaternion { x, y, z, w }),
    {
        Quaternion { x, y, z, w }
    }

    pub fn splat(v: T) -> (r: Self)
        ensures
            r == (Quaternion { x: v, y: v, z: v, w: v }),
    {
        Quaternion { x: v, y: v, z: v, w: v }
    }

    pub fn set_x(&self, x: T) -> (r: Self)
        ensures
            r == (Quaternion { x, y: self.y, z: self.z, w: self.w }),
    {
        Quaternion { x, y: self.y, z: self.z, w: self.w }
    }

    pub fn set_y(&self, y: T) -> (r: Self)
        ensures
            r == (Quaternion { x: self.x, y, z: self.z, w: self.w }),
    {
        Quaternion { x: self.x, y, z: self.z, w: self.w }
    }

    pub fn set_z(&self, z: T) -> (r: Self)
        ensures
            r == (Quaternion { x: self.x, y: self.y, z, w: self.w }),
    {
        Quaternion { x: self.x, y: self.y, z, w: self.w }
    }

    pub fn set_w(&self, w: T) -> (r: Self)
        ensures
            r == (Quaternion { x: self.x, y: self.y, z: self.z, w }),
    {
        Quaternion { x: self.x, y: self.y, z: self.z, w }
    }

    pub fn set_mut_x(&mut self, x: T)
        ensures
            *final(self) == (Quaternion { x, y: old(self).y, z: old(self).z, w: old(self).w }),
    {
        self.x = x;
    }

    pub fn set_mut_y(&mut self, y: T)
        ensures
            *final(self) == (Quaternion { x: old(self).x, y, z: old(self).z, w: old(self).w }),
    {
        self.y = y;
    }

    pub fn set_mut_z(&mut self, z: T)
        ensures
            *final(self) == (Quaternion { x: old(self).x, y: old(self).y, z, w: old(self).w }),
    {
        self.z = z;
    }

    pub fn set_mut_w(&mut self, w: T)
        ensures
            *final(self) == (Quaternion { x: old(self).x, y: old(self).y, z: old(self).z, w }),
    {
        self.w = w;
    }
}

impl<T: Arith> Quaternion<T> {
    /// The conjugate: the vector part negated, the scalar part kept.
    pub open spec fn conjugated_s(self) -> Self {
        Quaternion { x: self.x.neg_s(), y: self.y.neg_s(), z: self.z.neg_s(), w: self.w }
    }

    pub fn to_conjugated(&self) -> (r: Self)
        ensures
            r == self.conjugated_s(),
    {
        Quaternion { x: self.x.neg(), y: self.y.neg(), z: self.z.neg(), w: self.w }
    }

    /// The squared norm.
    pub open spec fn norm_sq_s(self) -> T {
        self.x.mul_s(self.x).add_s(self.y.mul_s(self.y)).add_s(self.z.mul_s(self.z)).add_s(
            self.w.mul_s(self.w),
        )
    }

    /// The componentwise sum.
    pub open spec fn add_s(self, rhs: Self) -> Self {
        Quaternion {
            x: self.x.add_s(rhs.x),
            y: self.y.add_s(rhs.y),
            z: self.z.add_s(rhs.z),
            w: self.w.add_s(rhs.w),
        }
    }

    /// The componentwise difference.
    pub open spec fn sub_s(self, rhs: Self) -> Self {
        Quaternion {
            x: self.x.sub_s(rhs.x),
            y: self.y.sub_s(rhs.y),
            z: self.z.sub_s(rhs.z),
            w: self.w.sub_s(rhs.w),
        }
    }

    pub open spec fn neg_s(self) -> Self {
        Quaternion { x: self.x.neg_s(), y: self.y.neg_s(), z: self.z.neg_s(), w: self.w.neg_s() }
    }

    pub fn add(self, rhs: Self) -> (r: Self)
        ensures
            r == self.add_s(rhs),
    {
        Quaternion {
            x: self.x.add(rhs.x),
            y: self.y.add(rhs.y),
            z: self.z.add(rhs.z),
            w: self.w.add(rhs.w),
        }
    }

    pub fn sub(self, rhs: Self) -> (r: Self)
        ensures
            r == self.sub_s(rhs),
    {
        Quaternion {
            x: self.x.sub(rhs.x),
            y: self.y.sub(rhs.y),
            z: self.z.sub(rhs.z),
            w: self.w.sub(rhs.w),
        }
    }

    pub fn neg(self) -> (r: Self)
        ensures
            r == self.neg_s(),
    {
        Quaternion { x: self.x.neg(), y: self.y.neg(), z: self.z.neg(), w: self.w.neg() }
    }

    /// The Hamilton product.
    pub fn mul(self, rhs: Self) -> (r: Self)
        ensures
            r == qmul_s(self, rhs),
    {
        let x = self.w.mul(rhs.x).add(self.x.mul(rhs.w)).add(self.y.mul(rhs.z)).sub(
            self.z.mul(rhs.y),
        );
        let y = self.w.mul(rhs.y).sub(self.x.mul(rhs.z)).add(self.y.mul(rhs.w)).add(
            self.z.mul(rhs.x),
        );
        let z = self.w.mul(rhs.z).add(self.x.mul(rhs.y)).sub(self.y.mul(rhs.x)).add(
            self.z.mul(rhs.w),
        );
        let w = self.w.mul(rhs.w).sub(self.x.mul(rhs.x)).sub(self.y.mul(rhs.y)).sub(
            self.z.mul(rhs.z),
        );
        Quaternion { x, y, z, w }
    }
}

impl<T: Arith + SinCos + Two> Quaternion<T> {
    /// The quaternion of the rotation by `rad` radians about `axis`: the axis
    /// scaled by the sine of the half angle, with the cosine as scalar part.
    pub open spec fn from_angle_s(rad: T, axis: Vec3<T>) -> Self {
        let half = div_or_zero_s(rad, T::two_s());
        Quaternion {
            x: axis.x.mul_s(half.sin_s()),
            y: axis.y.mul_s(half.sin_s()),
            z: axis.z.mul_s(half.sin_s()),
            w: half.cos_s(),
        }
    }

    pub fn from_angle(rad: T, axis: Vec3<T>) -> (r: Self)
        ensures
            r == Self::from_angle_s(rad, axis),
    {
        let half = div_or_zero(rad, T::two());
        let sc = half.sin_cos();
        axis.scale(sc.0).extend_to_quater(sc.1)
    }
}

impl<T: Zero + One> Unit for Quaternion<T> {
    /// The identity rotation.
    open spec fn unit_s() -> Self {
        Quaternion { x: T::zero_s(), y: T::zero_s(), z: T::zero_s(), w: T::one_s() }
    }

    fn unit() -> Self {
        Quaternion { x: T::zero(), y: T::zero(), z: T::zero(), w: T::one() }
    }
}

impl<T: Zero> Zero for Quaternion<T> {
    open spec fn zero_s() -> Self {
        Quaternion { x: T::zero_s(), y: T::zero_s(), z: T::zero_s(), w: T::zero_s() }
    }

    fn zero() -> Self {
        Quaternion { x: T::zero(), y: T::zero(), z: T::zero(), w: T::zero() }
    }
}

impl<T: One> One for Quaternion<T> {
    open spec fn one_s() -> Self {
        Quaternion { x: T::one_s(), y: T::one_s(), z: T::one_s(), w: T::one_s() }
    }

    fn one() -> Self {
        Quaternion { x: T::one(), y: T::one(), z: T::one(), w: T::one() }
    }
}

impl<T: Zero + One> AxisUnits for Quaternion<T> {
    open spec fn unit_x_s() -> Self {
        Quaternion { x: T::one_s(), y: T::zero_s(), z: T::zero_s(), w: T::zero_s() }
    }

    open spec fn unit_y_s() -> Self {
        Quaternion { x: T::zero_s(), y: T::one_s(), z: T::zero_s(), w: T::zero_s() }
    }

    open spec fn unit_z_s() -> Self {
        Quaternion { x: T::zero_s(), y: T::zero_s(), z: T::one_s(), w: T::zero_s() }
    }

    fn unit_x() -> Self {
        Quaternion { x: T::one(), y: T::zero(), z: T::zero(), w: T::zero() }
    }

    fn unit_y() -> Self {
        Quaternion { x: T::zero(), y: T::one(), z: T::zero(), w: T::zero() }
    }

    fn unit_z() -> Self {
        Quaternion { x: T::zero(), y: T::zero(), z: T::one(), w: T::zero() }
    }
}

impl<T: Arith + Sqrt> Quaternion<T> {
    /// The Euclidean norm.
    pub open spec fn len_s(self) -> T {
        self.norm_sq_s().sqrt_s()
    }

    fn len(self) -> (r: T)
        ensures
            r == self.len_s(),
    {
        self.x.mul(self.x).add(self.y.mul(self.y)).add(self.z.mul(self.z)).add(
            self.w.mul(self.w),
        ).sqrt()
    }
}

impl<T: Arith + Sqrt> Vector for Quaternion<T> {
    /// Each component divided by the norm; the zero quaternion when the norm
    /// is zero.
    open spec fn normalized_s(self) -> Self {
        if self.len_s() == T::zero_s() {
            Self::zero_s()
        } else {
            Quaternion {
                x: self.x.div_s(self.len_s()),
                y: self.y.div_s(self.len_s()),
                z: self.z.div_s(self.len_s()),
                w: self.w.div_s(self.len_s()),
            }
        }
    }

    /// The vector part divided by the scalar part, which becomes one; the
    /// zero quaternion when the scalar part is zero.
    open spec fn projected_s(self) -> Self {
        if self.w == T::zero_s() {
            Self::zero_s()
        } else {
            Quaternion {
                x: self.x.div_s(self.w),
                y: self.y.div_s(self.w),
                z: self.z.div_s(self.w),
                w: T::one_s(),
            }
        }
    }

    fn nullify(&mut self) {
        self.x = T::zero();
        self.y = T::zero();
        self.z = T::zero();
        self.w = T::zero();
    }

    fn normalize(&mut self) {
        *self = self.to_normalized();
    }

    fn to_normalized(&self) -> (r: Self) {
        let len = self.len();
        if len.equals(T::zero()) {
            Self::zero()
        } else {
            Quaternion {
                x: self.x.div(len),
                y: self.y.div(len),
                z: self.z.div(len),
                w: self.w.div(len),
            }
        }
    }

    fn project(&mut self) {
        *self = self.to_projected();
    }

    fn to_projected(&self) -> (r: Self) {
        if self.w.equals(T::zero()) {
            Self::zero()
        } else {
            Quaternion {
                x: self.x.div(self.w),
                y: self.y.div(self.w),
                z: self.z.div(self.w),
                w: T::one(),
            }
        }
    }
}

impl<T: Copy> Quaternion<T> {
    pub open spec fn into_vec2_s(self) -> Vec2<T> {
        Vec2 { x: self.x, y: self.y }
    }

    pub fn into_vec2(&self) -> (r: Vec2<T>)
        ensures
            r == self.into_vec2_s(),
    {
        Vec2 { x: self.x, y: self.y }
    }

    pub open spec fn into_vec3_s(self) -> Vec3<T> {
        Vec3 { x: self.x, y: self.y, z: self.z }
    }

    pub fn into_vec3(&self) -> (r: Vec3<T>)
        ensures
            r == self.into_vec3_s(),
    {
        Vec3 { x: self.x, y: self.y, z: self.z }
    }

    pub open spec fn into_vec4_s(self) -> Vec4<T> {
        Vec4 { x: self.x, y: self.y, z: self.z, w: self.w }
    }

    pub fn into_vec4(&self) -> (r: Vec4<T>)
        ensures
            r == self.into_vec4_s(),
    {
        Vec4 { x: self.x, y: self.y, z: self.z, w: self.w }
    }
}

} // verus!
