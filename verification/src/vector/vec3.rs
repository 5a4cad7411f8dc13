//! A three-component vector, generic over the scalar.

use vstd::prelude::*;
use crate::num_traits::{Zero, One, Arith, Sqrt};
use crate::vector::{AxisUnits, Vector};
use crate::vector::vec2::Vec2;
use crate::vector::vec4::Vec4;
use crate::vector::quaternion::{Quaternion, qmul_s};
use crate::matrix::matrix4::Matrix4;

verus! {

#[derive(Debug, PartialEq, PartialOrd, Clone, Copy)]
pub struct Vec3<T> {
    pub x: T,
    pub y: T,
    pub z: T,
}

impl<T: Copy> Vec3<T> {
    pub fn new(x: T, y: T, z: T) -> (r: Self)
        ensures
            r == (Vec3 { x, y, z }),
    {
        Vec3 { x, y, z }
    }

    pub fn splat(v: T) -> (r: Self)
        ensures
            r == (Vec3 { x: v, y: v, z: v }),
    {
        Vec3 { x: v, y: v, z: v }
    }

    pub fn set_x(&self, x: T) -> (r: Self)
        ensures
            r == (Vec3 { x, y: self.y, z: self.z }),
    {
        Vec3 { x, y: self.y, z: self.z }
    }

    pub fn set_y(&self, y: T) -> (r: Self)
        ensures
            r == (Vec3 { x: self.x, y, z: self.z }),
    {
        Vec3 { x: self.x, y, z: self.z }
    }

    pub fn set_z(&self, z: T) -> (r: Self)
        ensures
            r == (Vec3 { x: self.x, y: self.y, z }),
    {
        Vec3 { x: self.x, y: self.y, z }
    }

    pub fn set_mut_x(&mut self, x: T)
        ensures
            *final(self) == (Vec3 { x, y: old(self).y, z: old(self).z }),
    {
        self.x = x;
    }

    pub fn set_mut_y(&mut self, y: T)
        ensures
            *final(self) == (Vec3 { x: old(self).x, y, z: old(self).z }),
    {
        self.y = y;
    }

    pub fn set_mut_z(&mut self, z: T)
        ensures
            *final(self) == (Vec3 { x: old(self).x, y: old(self).y, z }),
    {
        self.z = z;
    }
}

impl<T: Arith> Vec3<T> {
    /// The componentwise sum.
    pub open spec fn add_s(self, rhs: Self) -> Self {
        Vec3 { x: self.x.add_s(rhs.x), y: self.y.add_s(rhs.y), z: self.z.add_s(rhs.z) }
    }

    /// The componentwise difference.
    pub open spec fn sub_s(self, rhs: Self) -> Self {
        Vec3 { x: self.x.sub_s(rhs.x), y: self.y.sub_s(rhs.y), z: self.z.sub_s(rhs.z) }
    }

    /// The componentwise product.
    pub open spec fn mul_s(self, rhs: Self) -> Self {
        Vec3 { x: self.x.mul_s(rhs.x), y: self.y.mul_s(rhs.y), z: self.z.mul_s(rhs.z) }
    }

    /// All components multiplied by one scalar.
    pub open spec fn scale_s(self, rhs: T) -> Self {
        Vec3 { x: self.x.mul_s(rhs), y: self.y.mul_s(rhs), z: self.z.mul_s(rhs) }
    }

    pub open spec fn neg_s(self) -> Self {
        Vec3 { x: self.x.neg_s(), y: self.y.neg_s(), z: self.z.neg_s() }
    }

    pub fn add(self, rhs: Self) -> (r: Self)
        ensures
            r == self.add_s(rhs),
    {
        Vec3 { x: self.x.add(rhs.x), y: self.y.add(rhs.y), z: self.z.add(rhs.z) }
    }

    pub fn sub(self, rhs: Self) -> (r: Self)
        ensures
            r == self.sub_s(rhs),
    {
        Vec3 { x: self.x.sub(rhs.x), y: self.y.sub(rhs.y), z: self.z.sub(rhs.z) }
    }

    pub fn mul(self, rhs: Self) -> (r: Self)
        ensures
            r == self.mul_s(rhs),
    {
        Vec3 { x: self.x.mul(rhs.x), y: self.y.mul(rhs.y), z: self.z.mul(rhs.z) }
    }

    pub fn scale(self, rhs: T) -> (r: Self)
        ensures
            r == self.scale_s(rhs),
    {
        Vec3 { x: self.x.mul(rhs), y: self.y.mul(rhs), z: self.z.mul(rhs) }
    }

    pub fn neg(self) -> (r: Self)
        ensures
            r == self.neg_s(),
    {
        Vec3 { x: self.x.neg(), y: self.y.neg(), z: self.z.neg() }
    }
}

impl<T: Arith + Sqrt> Vec3<T> {
    /// The Euclidean norm: the square root of the sum of squared components.
    pub open spec fn len_s(self) -> T {
        self.x.mul_s(self.x).add_s(self.y.mul_s(self.y)).add_s(
            self.z.mul_s(self.z),
        ).sqrt_s()
    }

    fn len(self) -> (r: T)
        ensures
            r == self.len_s(),
    {
        self.x.mul(self.x).add(self.y.mul(self.y)).add(self.z.mul(self.z)).sqrt()
    }
}

impl<T: Arith + Sqrt> Vector for Vec3<T> {
    /// Each component divided by the norm; the zero vector when the norm is
    /// zero.
    open spec fn normalized_s(self) -> Self {
        if self.len_s() == T::zero_s() {
            Self::zero_s()
        } else {
            Vec3 {
                x: self.x.div_s(self.len_s()),
                y: self.y.div_s(self.len_s()),
                z: self.z.div_s(self.len_s()),
            }
        }
    }

    /// The leading components divided by the last, which becomes one; the
    /// zero vector when the last component is zero.
    open spec fn projected_s(self) -> Self {
        if self.z == T::zero_s() {
            Self::zero_s()
        } else {
            Vec3 { x: self.x.div_s(self.z), y: self.y.div_s(self.z), z: T::one_s() }
        }
    }

    fn nullify(&mut self) {
        self.x = T::zero();
        self.y = T::zero();
        self.z = T::zero();
    }

    fn normalize(&mut self) {
        *self = self.to_normalized();
    }

    fn to_normalized(&self) -> (r: Self) {
        let len = self.len();
        if len.equals(T::zero()) {
            Self::zero()
        } else {
            Vec3 { x: self.x.div(len), y: self.y.div(len), z: self.z.div(len) }
        }
    }

    fn project(&mut self) {
        *self = self.to_projected();
    }

    fn to_projected(&self) -> (r: Self) {
        if self.z.equals(T::zero()) {
            Self::zero()
        } else {
            Vec3 { x: self.x.div(self.z), y: self.y.div(self.z), z: T::one() }
        }
    }
}

impl<T: Zero> Zero for Vec3<T> {
    open spec fn zero_s() -> Self {
        Vec3 { x: T::zero_s(), y: T::zero_s(), z: T::zero_s() }
    }

    fn zero() -> Self {
        Vec3 { x: T::zero(), y: T::zero(), z: T::zero() }
    }
}

impl<T: One> One for Vec3<T> {
    open spec fn one_s() -> Self {
        Vec3 { x: T::one_s(), y: T::one_s(), z: T::one_s() }
    }

    fn one() -> Self {
        Vec3 { x: T::one(), y: T::one(), z: T::one() }
    }
}

impl<T: Zero + One> AxisUnits for Vec3<T> {
    open spec fn unit_x_s() -> Self {
        Vec3 { x: T::one_s(), y: T::zero_s(), z: T::zero_s() }
    }

    open spec fn unit_y_s() -> Self {
        Vec3 { x: T::zero_s(), y: T::one_s(), z: T::zero_s() }
    }

    open spec fn unit_z_s() -> Self {
        Vec3 { x: T::zero_s(), y: T::zero_s(), z: T::one_s() }
    }

    fn unit_x() -> Self {
        Vec3 { x: T::one(), y: T::zero(), z: T::zero() }
    }

    fn unit_y() -> Self {
        Vec3 { x: T::zero(), y: T::one(), z: T::zero() }
    }

    fn unit_z() -> Self {
        Vec3 { x: T::zero(), y: T::zero(), z: T::one() }
    }
}

impl<T: Zero + One + Copy> Vec3<T> {
    /// The vector lifted to homogeneous coordinates (`w = 1`).
    pub fn into_lifted(&self) -> (r: Vec4<T>)
        ensures
            r == (Vec4 { x: self.x, y: self.y, z: self.z, w: T::one_s() }),
    {
        Vec4 { x: self.x, y: self.y, z: self.z, w: T::one() }
    }

    /// The homogeneous matrix that translates by this vector.
    pub open spec fn to_displacement_matrix_s(self) -> Matrix4<T> {
        Matrix4 {
            i: Vec4::<T>::unit_x_s(),
            j: Vec4::<T>::unit_y_s(),
            k: Vec4::<T>::unit_z_s(),
            w: Vec4 { x: self.x, y: self.y, z: self.z, w: T::one_s() },
        }
    }

    pub fn to_displacement_matrix(&self) -> (r: Matrix4<T>)
        ensures
            r == self.to_displacement_matrix_s(),
    {
        Matrix4 {
            i: Vec4::unit_x(),
            j: Vec4::unit_y(),
            k: Vec4::unit_z(),
            w: Vec4 { x: self.x, y: self.y, z: self.z, w: T::one() },
        }
    }
}

/// The value of a vector rotated by a quaternion: the vector part of the
/// sandwich product `q * v * conjugate(q)`.
pub open spec fn rotated_s<T: Arith>(v: Vec3<T>, q: Quaternion<T>) -> Vec3<T> {
    qmul_s(qmul_s(q, v.into_quater_s()), q.conjugated_s()).into_vec3_s()
}

impl<T: Arith> Vec3<T> {
    /// Rotate the vector in place by the quaternion sandwich product.
    pub fn raw_rotate(&mut self, quater: Quaternion<T>)
        ensures
            *final(self) == rotated_s(*old(self), quater),
    {
        *self = self.to_raw_rotated(quater);
    }

    /// The vector rotated by the quaternion sandwich product.
    pub fn to_raw_rotated(&self, quater: Quaternion<T>) -> (r: Self)
        ensures
            r == rotated_s(*self, quater),
    {
        let conjugated = quater.to_conjugated();
        quater.mul(self.into_quater()).mul(conjugated).into_vec3()
    }
}

impl<T: Copy> Vec3<T> {
    pub open spec fn into_vec2_s(self) -> Vec2<T> {
        Vec2 { x: self.x, y: self.y }
    }

    pub fn into_vec2(&self) -> (r: Vec2<T>)
        ensures
            r == self.into_vec2_s(),
    {
        Vec2 { x: self.x, y: self.y }
    }

    pub fn extend_to_vec4(&self, w: T) -> (r: Vec4<T>)
        ensures
            r == (Vec4 { x: self.x, y: self.y, z: self.z, w }),
    {
        Vec4 { x: self.x, y: self.y, z: self.z, w }
    }

    pub fn extend_to_quater(&self, w: T) -> (r: Quaternion<T>)
        ensures
            r == (Quaternion { x: self.x, y: self.y, z: self.z, w }),
    {
        Quaternion { x: self.x, y: self.y, z: self.z, w }
    }
}

impl<T: Zero + Copy> Vec3<T> {
    /// The vector as a purely imaginary quaternion.
    pub open spec fn into_quater_s(self) -> Quaternion<T> {
        Quaternion { x: self.x, y: self.y, z: self.z, w: T::zero_s() }
    }

    pub fn into_quater(&self) -> (r: Quaternion<T>)
        ensures
            r == self.into_quater_s(),
    {
        Quaternion { x: self.x, y: self.y, z: self.z, w: T::zero() }
    }

    pub fn into_vec4(&self) -> (r: Vec4<T>)
        ensures
            r == (Vec4 { x: self.x, y: self.y, z: self.z, w: T::zero_s() }),
    {
        Vec4 { x: self.x, y: self.y, z: self.z, w: T::zero() }
    }
}

} // verus!
