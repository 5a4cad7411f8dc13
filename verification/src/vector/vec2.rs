//! A two-component vector, generic over the scalar.

use vstd::prelude::*;
use crate::num_traits::{Zero, One, Arith, Sqrt, SinCos, NegOne};
use crate::vector::{AxisUnits, Vector};
use crate::vector::vec3::Vec3;
use crate::vector::vec4::Vec4;
use crate::vector::quaternion::Quaternion;
use crate::matrix::matrix2::Matrix2;

verus! {

#[derive(Debug, PartialEq, PartialOrd, Clone, Copy)]
pub struct Vec2<T> {
    pub x: T,
    pub y: T,
}

impl<T: Copy> Vec2<T> {
    pub fn new(x: T, y: T) -> (r: Self)
        ensures
            r == (Vec2 { x, y }),
    {
        Vec2 { x, y }
    }

    pub fn splat(v: T) -> (r: Self)
        ensures
            r == (Vec2 { x: v, y: v }),
    {
        Vec2 { x: v, y: v }
    }

    pub fn set_x(&self, x: T) -> (r: Self)
        ensures
            r == (Vec2 { x, y: self.y }),
    {
        Vec2 { x, y: self.y }
    }

    pub fn set_y(&self, y: T) -> (r: Self)
        ensures
            r == (Vec2 { x: self.x, y }),
    {
        Vec2 { x: self.x, y }
    }

    pub fn set_mut_x(&mut self, x: T)
        ensures
            *final(self) == (Vec2 { x, y: old(self).y }),
    {
        self.x = x;
    }

    pub fn set_mut_y(&mut self, y: T)
        ensures
            *final(self) == (Vec2 { x: old(self).x, y }),
    {
        self.y = y;
    }
}

impl<T: Arith> Vec2<T> {
    /// The componentwise sum.
    pub open spec fn add_s(self, rhs: Self) -> Self {
        Vec2 { x: self.x.add_s(rhs.x), y: self.y.add_s(rhs.y) }
    }

    /// The componentwise difference.
    pub open spec fn sub_s(self, rhs: Self) -> Self {
        Vec2 { x: self.x.sub_s(rhs.x), y: self.y.sub_s(rhs.y) }
    }

    /// The componentwise product.
    pub open spec fn mul_s(self, rhs: Self) -> Self {
        Vec2 { x: self.x.mul_s(rhs.x), y: self.y.mul_s(rhs.y) }
    }

    /// Both components multiplied by one scalar.
    pub open spec fn scale_s(self, rhs: T) -> Self {
        Vec2 { x: self.x.mul_s(rhs), y: self.y.mul_s(rhs) }
    }

    pub open spec fn neg_s(self) -> Self {
        Vec2 { x: self.x.neg_s(), y: self.y.neg_s() }
    }

    pub fn add(self, rhs: Self) -> (r: Self)
        ensures
            r == self.add_s(rhs),
    {
        Vec2 { x: self.x.add(rhs.x), y: self.y.add(rhs.y) }
    }

    pub fn sub(self, rhs: Self) -> (r: Self)
        ensures
            r == self.sub_s(rhs),
    {
        Vec2 { x: self.x.sub(rhs.x), y: self.y.sub(rhs.y) }
    }

    pub fn mul(self, rhs: Self) -> (r: Self)
        ensures
            r == self.mul_s(rhs),
    {
        Vec2 { x: self.x.mul(rhs.x), y: self.y.mul(rhs.y) }
    }

    pub fn scale(self, rhs: T) -> (r: Self)
        ensures
            r == self.scale_s(rhs),
    {
        Vec2 { x: self.x.mul(rhs), y: self.y.mul(rhs) }
    }

    pub fn neg(self) -> (r: Self)
        ensures
            r == self.neg_s(),
    {
        Vec2 { x: self.x.neg(), y: self.y.neg() }
    }
}

impl<T: Arith + Sqrt> Vec2<T> {
    /// The Euclidean norm: the square root of the sum of squared components.
    pub open spec fn len_s(self) -> T {
        self.x.mul_s(self.x).add_s(self.y.mul_s(self.y)).sqrt_s()
    }

    fn len(self) -> (r: T)
        ensures
            r == self.len_s(),
    {
        self.x.mul(self.x).add(self.y.mul(self.y)).sqrt()
    }
}

impl<T: Arith + Sqrt> Vector for Vec2<T> {
    /// Each component divided by the norm; the zero vector when the norm is
    /// zero.
    open spec fn normalized_s(self) -> Self {
        if self.len_s() == T::zero_s() {
            Self::zero_s()
        } else {
            Vec2 { x: self.x.div_s(self.len_s()), y: self.y.div_s(self.len_s()) }
        }
    }

    /// The first component divided by the last, which becomes one; the zero
    /// vector when the last component is zero.
    open spec fn projected_s(self) -> Self {
        if self.y == T::zero_s() {
            Self::zero_s()
        } else {
            Vec2 { x: self.x.div_s(self.y), y: T::one_s() }
        }
    }

    fn nullify(&mut self) {
        self.x = T::zero();
        self.y = T::zero();
    }

    fn normalize(&mut self) {
        *self = self.to_normalized();
    }

    fn to_normalized(&self) -> (r: Self) {
        let len = self.len();
        if len.equals(T::zero()) {
            Self::zero()
        } else {
            Vec2 { x: self.x.div(len), y: self.y.div(len) }
        }
    }

    fn project(&mut self) {
        *self = self.to_projected();
    }

    fn to_projected(&self) -> (r: Self) {
        if self.y.equals(T::zero()) {
            Self::zero()
        } else {
            Vec2 { x: self.x.div(self.y), y: T::one() }
        }
    }
}

impl<T: Zero> Zero for Vec2<T> {
    open spec fn zero_s() -> Self {
        Vec2 { x: T::zero_s(), y: T::zero_s() }
    }

    fn zero() -> Self {
        Vec2 { x: T::zero(), y: T::zero() }
    }
}

impl<T: One> One for Vec2<T> {
    open spec fn one_s() -> Self {
        Vec2 { x: T::one_s(), y: T::one_s() }
    }

    fn one() -> Self {
        Vec2 { x: T::one(), y: T::one() }
    }
}

impl<T: Zero + One> AxisUnits for Vec2<T> {
    open spec fn unit_x_s() -> Self {
        Vec2 { x: T::one_s(), y: T::zero_s() }
    }

    open spec fn unit_y_s() -> Self {
        Vec2 { x: T::zero_s(), y: T::one_s() }
    }

    open spec fn unit_z_s() -> Self {
        Vec2 { x: T::zero_s(), y: T::zero_s() }
    }

    fn unit_x() -> Self {
        Vec2 { x: T::one(), y: T::zero() }
    }

    fn unit_y() -> Self {
        Vec2 { x: T::zero(), y: T::one() }
    }

    fn unit_z() -> Self {
        Vec2 { x: T::zero(), y: T::zero() }
    }
}

impl<T: Arith + SinCos + NegOne> Vec2<T> {
    /// Rotate the vector in the plane by an angle in radians.
    pub fn rotate(&mut self, rad: T)
        ensures
            *final(self) == Matrix2::rotate_matrix_s(rad).mul_vec_s(*old(self)),
    {
        *self = Matrix2::rotate_matrix(rad).mul_vec(*self);
    }
}

impl<T: Copy + One> Vec2<T> {
    /// The vector as a homogeneous point of the plane (`z = 1`).
    pub fn to_homogeneous(&self) -> (r: Vec3<T>)
        ensures
            r == (Vec3 { x: self.x, y: self.y, z: T::one_s() }),
    {
        Vec3 { x: self.x, y: self.y, z: T::one() }
    }
}

impl<T: Copy> Vec2<T> {
    pub fn extend_to_vec3(&self, z: T) -> (r: Vec3<T>)
        ensures
            r == (Vec3 { x: self.x, y: self.y, z }),
    {
        Vec3 { x: self.x, y: self.y, z }
    }

    pub fn extend_to_vec4(&self, z: T, w: T) -> (r: Vec4<T>)
        ensures
            r == (Vec4 { x: self.x, y: self.y, z, w }),
    {
        Vec4 { x: self.x, y: self.y, z, w }
    }

    pub fn extend_to_quater(&self, z: T, w: T) -> (r: Quaternion<T>)
        ensures
            r == (Quaternion { x: self.x, y: self.y, z, w }),
    {
        Quaternion { x: self.x, y: self.y, z, w }
    }
}

impl<T: Zero> Vec2<T> {
    pub fn into_vec3(&self) -> (r: Vec3<T>)
        ensures
            r == (Vec3 { x: self.x, y: self.y, z: T::zero_s() }),
    {
        Vec3 { x: self.x, y: self.y, z: T::zero() }
    }

    pub fn into_vec4(&self) -> (r: Vec4<T>)
        ensures
            r == (Vec4 { x: self.x, y: self.y, z: T::zero_s(), w: T::zero_s() }),
    {
        Vec4 { x: self.x, y: self.y, z: T::zero(), w: T::zero() }
    }

    pub fn into_quater(&self) -> (r: Quaternion<T>)
        ensures
            r == (Quaternion { x: self.x, y: self.y, z: T::zero_s(), w: T::zero_s() }),
    {
        Quaternion { x: self.x, y: self.y, z: T::zero(), w: T::zero() }
    }
}

} // verus!
