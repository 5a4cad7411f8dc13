//! A four-component vector (a homogeneous point), generic over the scalar.

use vstd::prelude::*;
use crate::num_traits::{Zero, One, Arith, Sqrt};
use crate::vector::{AxisUnits, Vector};
use crate::vector::vec2::Vec2;
use crate::vector::vec3::Vec3;
use crate::vector::quaternion::{Quaternion, qmul_s};

verus! {

#[derive(Debug, PartialEq, PartialOrd, Clone, Copy)]
pub struct Vec4<T> {
    pub x: T,
    pub y: T,
    pub z: T,
    pub w: T,
}

impl<T: Copy> Vec4<T> {
    pub fn new(x: T, y: T, z: T, w: T) -> (r: Self)
        ensures
            r == (Vec4 { x, y, z, w }),
    {
        Vec4 { x, y, z, w }
    }

    pub fn splat(v: T) -> (r: Self)
        ensures
            r == (Vec4 { x: v, y: v, z: v, w: v }),
    {
        Vec4 { x: v, y: v, z: v, w: v }
    }

    pub fn set_x(&self, x: T) -> (r: Self)
        ensures
            r == (Vec4 { x, y: self.y, z: self.z, w: self.w }),
    {
        Vec4 { x, y: self.y, z: self.z, w: self.w }
    }

    pub fn set_y(&self, y: T) -> (r: Self)
        ensures
            r == (Vec4 { x: self.x, y, z: self.z, w: self.w }),
    {
        Vec4 { x: self.x, y, z: self.z, w: self.w }
    }

    pub fn set_z(&self, z: T) -> (r: Self)
        ensures
            r == (Vec4 { x: self.x, y: self.y, z, w: self.w }),
    {
        Vec4 { x: self.x, y: self.y, z, w: self.w }
    }

    pub fn set_w(&self, w: T) -> (r: Self)
        ensures
            r == (Vec4 { x: self.x, y: self.y, z: self.z, w }),
    {
        Vec4 { x: self.x, y: self.y, z: self.z, w }
    }

    pub fn set_mut_x(&mut self, x: T)
        ensures
            *final(self) == (Vec4 { x, y: old(self).y, z: old(self).z, w: old(self).w }),
    {
        self.x = x;
    }

    pub fn set_mut_y(&mut self, y: T)
        ensures
            *final(self) == (Vec4 { x: old(self).x, y, z: old(self).z, w: old(self).w }),
    {
        self.y = y;
    }

    pub fn set_mut_z(&mut self, z: T)
        ensures
            *final(self) == (Vec4 { x: old(self).x, y: old(self).y, z, w: old(self).w }),
    {
        self.z = z;
    }

    pub fn set_mut_w(&mut self, w: T)
        ensures
            *final(self) == (Vec4 { x: old(self).x, y: old(self).y, z: old(self).z, w }),
    {
        self.w = w;
    }
}

impl<T: Arith> Vec4<T> {
    /// The componentwise sum.
    pub open spec fn add_s(self, rhs: Self) -> Self {
        Vec4 {
            x: self.x.add_s(rhs.x),
            y: self.y.add_s(rhs.y),
            z: self.z.add_s(rhs.z),
            w: self.w.add_s(rhs.w),
        }
    }

    /// The componentwise difference.
    pub open spec fn sub_s(self, rhs: Self) -> Self {
        Vec4 {
            x: self.x.sub_s(rhs.x),
            y: self.y.sub_s(rhs.y),
            z: self.z.sub_s(rhs.z),
            w: self.w.sub_s(rhs.w),
        }
    }

    /// The componentwise product.
    pub open spec fn mul_s(self, rhs: Self) -> Self {
        Vec4 {
            x: self.x.mul_s(rhs.x),
            y: self.y.mul_s(rhs.y),
            z: self.z.mul_s(rhs.z),
            w: self.w.mul_s(rhs.w),
        }
    }

    /// All components multiplied by one scalar.
    pub open spec fn scale_s(self, rhs: T) -> Self {
        Vec4 {
            x: self.x.mul_s(rhs),
            y: self.y.mul_s(rhs),
            z: self.z.mul_s(rhs),
            w: self.w.mul_s(rhs),
        }
    }

    pub open spec fn neg_s(self) -> Self {
        Vec4 { x: self.x.neg_s(), y: self.y.neg_s(), z: self.z.neg_s(), w: self.w.neg_s() }
    }

    pub fn add(self, rhs: Self) -> (r: Self)
        ensures
            r == self.add_s(rhs),
    {
        Vec4 {
            x: self.x.add(rhs.x),
            y: self.y.add(rhs.y),
            z: self.z.add(rhs.z),
            w: self.w.add(rhs.w),
        }
    }

    pub fn sub(self, rhs: Self) -> (r: Self)
        ensures
            r == self.sub_s(rhs),
    {
        Vec4 {
            x: self.x.sub(rhs.x),
            y: self.y.sub(rhs.y),
            z: self.z.sub(rhs.z),
            w: self.w.sub(rhs.w),
        }
    }

    pub fn mul(self, rhs: Self) -> (r: Self)
        ensures
            r == self.mul_s(rhs),
    {
        Vec4 {
            x: self.x.mul(rhs.x),
            y: self.y.mul(rhs.y),
            z: self.z.mul(rhs.z),
            w: self.w.mul(rhs.w),
        }
    }

    pub fn scale(self, rhs: T) -> (r: Self)
        ensures
            r == self.scale_s(rhs),
    {
        Vec4 {
            x: self.x.mul(rhs),
            y: self.y.mul(rhs),
            z: self.z.mul(rhs),
            w: self.w.mul(rhs),
        }
    }

    pub fn neg(self) -> (r: Self)
        ensures
            r == self.neg_s(),
    {
        Vec4 { x: self.x.neg(), y: self.y.neg(), z: self.z.neg(), w: self.w.neg() }
    }

    /// The affine point: the leading components divided by `w`, or the zero
    /// vector when `w` is zero.
    pub open spec fn to_affine_s(self) -> Vec3<T> {
        if self.w == T::zero_s() {
            Vec3::<T>::zero_s()
        } else {
            Vec3 { x: self.x.div_s(self.w), y: self.y.div_s(self.w), z: self.z.div_s(self.w) }
        }
    }

    pub fn to_affine(&self) -> (r: Vec3<T>)
        ensures
            r == self.to_affine_s(),
    {
        if self.w.equals(T::zero()) {
            Vec3::zero()
        } else {
            Vec3 { x: self.x.div(self.w), y: self.y.div(self.w), z: self.z.div(self.w) }
        }
    }

    /// Rotate in place by the quaternion sandwich product.
    pub fn rotate(&mut self, quater: Quaternion<T>)
        ensures
            *final(self) == old(self).to_rotated_s(quater),
    {
        *self = self.to_rotated(quater);
    }

    /// The vector rotated by the quaternion sandwich product.
    pub open spec fn to_rotated_s(self, quater: Quaternion<T>) -> Self {
        qmul_s(qmul_s(quater, self.into_quater_s()), quater.conjugated_s()).into_vec4_s()
    }

    pub fn to_rotated(&self, quater: Quaternion<T>) -> (r: Self)
        ensures
            r == self.to_rotated_s(quater),
    {
        quater.mul(self.into_quater()).mul(quater.to_conjugated()).into_vec4()
    }
}

impl<T: Arith + Sqrt> Vec4<T> {
    /// The Euclidean norm: the square root of the sum of squared components.
    pub open spec fn len_s(self) -> T {
        self.x.mul_s(self.x).add_s(self.y.mul_s(self.y)).add_s(self.z.mul_s(self.z)).add_s(
            self.w.mul_s(self.w),
        ).sqrt_s()
    }

    fn len(self) -> (r: T)
        ensures
            r == self.len_s(),
    {
        self.x.mul(self.x).add(self.y.mul(self.y)).add(self.z.mul(self.z)).add(
            self.w.mul(self.w),
        ).sqrt()
    }
}

impl<T: Arith + Sqrt> Vector for Vec4<T> {
    /// Each component divided by the norm; the zero vector when the norm is
    /// zero.
    open spec fn normalized_s(self) -> Self {
        if self.len_s() == T::zero_s() {
            Self::zero_s()
        } else {
            Vec4 {
                x: self.x.div_s(self.len_s()),
                y: self.y.div_s(self.len_s()),
                z: self.z.div_s(self.len_s()),
                w: self.w.div_s(self.len_s()),
            }
        }
    }

    /// The leading components divided by the last, which becomes one; the
    /// zero vector when the last component is zero.
    open spec fn projected_s(self) -> Self {
        if self.w == T::zero_s() {
            Self::zero_s()
        } else {
            Vec4 {
                x: self.x.div_s(self.w),
                y: self.y.div_s(self.w),
                z: self.z.div_s(self.w),
                w: T::one_s(),
            }
        }
    }

    fn nullify(&mut self) {
        self.x = T::zero();
        self.y = T::zero();
        self.z = T::zero();
        self.w = T::zero();
    }

    fn normalize(&mut self) {
        *self = self.to_normalized();
    }

    fn to_normalized(&self) -> (r: Self) {
        let len = self.len();
        if len.equals(T::zero()) {
            Self::zero()
        } else {
            Vec4 {
                x: self.x.div(len),
                y: self.y.div(len),
                z: self.z.div(len),
                w: self.w.div(len),
            }
        }
    }

    fn project(&mut self) {
        *self = self.to_projected();
    }

    fn to_projected(&self) -> (r: Self) {
        if self.w.equals(T::zero()) {
            Self::zero()
        } else {
            Vec4 {
                x: self.x.div(self.w),
                y: self.y.div(self.w),
                z: self.z.div(self.w),
                w: T::one(),
            }
        }
    }
}

impl<T: Zero> Zero for Vec4<T> {
    open spec fn zero_s() -> Self {
        Vec4 { x: T::zero_s(), y: T::zero_s(), z: T::zero_s(), w: T::zero_s() }
    }

    fn zero() -> Self {
        Vec4 { x: T::zero(), y: T::zero(), z: T::zero(), w: T::zero() }
    }
}

impl<T: One> One for Vec4<T> {
    open spec fn one_s() -> Self {
        Vec4 { x: T::one_s(), y: T::one_s(), z: T::one_s(), w: T::one_s() }
    }

    fn one() -> Self {
        Vec4 { x: T::one(), y: T::one(), z: T::one(), w: T::one() }
    }
}

impl<T: Zero + One> AxisUnits for Vec4<T> {
    open spec fn unit_x_s() -> Self {
        Vec4 { x: T::one_s(), y: T::zero_s(), z: T::zero_s(), w: T::zero_s() }
    }

    open spec fn unit_y_s() -> Self {
        Vec4 { x: T::zero_s(), y: T::one_s(), z: T::zero_s(), w: T::zero_s() }
    }

    open spec fn unit_z_s() -> Self {
        Vec4 { x: T::zero_s(), y: T::zero_s(), z: T::one_s(), w: T::zero_s() }
    }

    fn unit_x() -> Self {
        Vec4 { x: T::one(), y: T::zero(), z: T::zero(), w: T::zero() }
    }

    fn unit_y() -> Self {
        Vec4 { x: T::zero(), y: T::one(), z: T::zero(), w: T::zero() }
    }

    fn unit_z() -> Self {
        Vec4 { x: T::zero(), y: T::zero(), z: T::one(), w: T::zero() }
    }
}

impl<T: Zero + One> Vec4<T> {
    /// The unit value along the homogeneous axis.
    pub open spec fn unit_w_s() -> Self {
        Vec4 { x: T::zero_s(), y: T::zero_s(), z: T::zero_s(), w: T::one_s() }
    }

    pub fn unit_w() -> (r: Self)
        ensures
            r == Self::unit_w_s(),
    {
        Vec4 { x: T::zero(), y: T::zero(), z: T::zero(), w: T::one() }
    }
}

impl<T: Copy> Vec4<T> {
    pub open spec fn into_vec2_s(self) -> Vec2<T> {
        Vec2 { x: self.x, y: self.y }
    }

    pub fn into_vec2(&self) -> (r: Vec2<T>)
        ensures
            r == self.into_vec2_s(),
    {
        Vec2 { x: self.x, y: self.y }
    }

    pub open spec fn into_vec3_s(self) -> Vec3<T> {
        Vec3 { x: self.x, y: self.y, z: self.z }
    }

    pub fn into_vec3(&self) -> (r: Vec3<T>)
        ensures
            r == self.into_vec3_s(),
    {
        Vec3 { x: self.x, y: self.y, z: self.z }
    }

    pub open spec fn into_quater_s(self) -> Quaternion<T> {
        Quaternion { x: self.x, y: self.y, z: self.z, w: self.w }
    }

    pub fn into_quater(&self) -> (r: Quaternion<T>)
        ensures
            r == self.into_quater_s(),
    {
        Quaternion { x: self.x, y: self.y, z: self.z, w: self.w }
    }
}

} // verus!
