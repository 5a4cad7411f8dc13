//! The camera: a world position and a unit orientation quaternion.

use vstd::prelude::*;
use crate::num_traits::{Arith, Sqrt, SinCos, Two, Zero};
use crate::vector::Vector;
use crate::vector::vec3::Vec3;
use crate::vector::quaternion::{Quaternion, qmul_s};
use crate::matrix::Unit;
use crate::matrix::matrix4::Matrix4;
use crate::shape::AngleUnit;

verus! {

#[derive(Clone, Copy)]
pub struct Camera<T> {
    pub pos: Vec3<T>,
    /// The orientation.  The rotation methods keep it normalized; turning it
    /// by hand may let it drift from unit length.
    pub quaternion: Quaternion<T>,
}

impl<T: Arith> Camera<T> {
    /// The orientation quaternion.
    pub open spec fn spec_quaternion(self) -> Quaternion<T> {
        self.quaternion
    }

    pub fn new(pos: Vec3<T>, quaternion: Quaternion<T>) -> (r: Self)
        ensures
            r.pos == pos,
            r.spec_quaternion() == quaternion,
    {
        Camera { pos, quaternion }
    }

    pub fn quater(&self) -> (r: &Quaternion<T>)
        ensures
            *r == self.spec_quaternion(),
    {
        &self.quaternion
    }

    /// A camera looking along the product of the axis-angle requests,
    /// normalized.
    pub fn from_angles(pos: Vec3<T>, angles: &[AngleUnit<T>]) -> (r: Self)
        where T: SinCos + Two + Sqrt
        ensures
            r.pos == pos,
            r.spec_quaternion() == AngleUnit::<T>::unified_quater_s(angles@).normalized_s(),
    {
        let quaternion = AngleUnit::unification_to_quater(angles).to_normalized();
        Camera { pos, quaternion }
    }

    /// The camera turned by a quaternion, exactly as given: the raw product,
    /// not renormalized.
    pub fn raw_rotate(&self, quater: Quaternion<T>) -> (r: Self)
        ensures
            r.pos == self.pos,
            r.spec_quaternion() == qmul_s(self.spec_quaternion(), quater),
    {
        let quaternion = self.quaternion.mul(quater);
        Camera { pos: self.pos, quaternion }
    }

    /// The camera turned by a list of axis-angle requests.  The composed
    /// orientation is renormalized after every such composition, so that
    /// repeated small turns cannot drift away from unit length.
    pub fn rotate(&self, angles: &[AngleUnit<T>]) -> (r: Self)
        where T: SinCos + Two + Sqrt
        ensures
            r.pos == self.pos,
            r.spec_quaternion() == qmul_s(
                self.spec_quaternion(),
                AngleUnit::<T>::unified_quater_s(angles@),
            ).normalized_s(),
    {
        let quaternion = AngleUnit::unification_to_quater(angles);
        let r = self.raw_rotate(quaternion);
        Camera { pos: r.pos, quaternion: r.quaternion.to_normalized() }
    }

    /// The matrix that translates the world by the camera's negated position.
    pub fn to_displacement_matrix(&self) -> (r: Matrix4<T>)
        ensures
            r == self.pos.neg_s().to_displacement_matrix_s(),
    {
        self.pos.neg().to_displacement_matrix()
    }

    /// The conjugate of the orientation: it turns world directions into
    /// camera directions.
    pub fn to_rotation_quaternion(&self) -> (r: Quaternion<T>)
        ensures
            r == self.spec_quaternion().conjugated_s(),
    {
        self.quaternion.to_conjugated()
    }
}

impl<T: Arith> Default for Camera<T> {
    /// The camera at the origin, looking along the identity rotation.
    fn default() -> (r: Self)
        ensures
            r.pos == Vec3::<T>::zero_s(),
            r.spec_quaternion() == Quaternion::<T>::unit_s(),
    {
        Camera { pos: Vec3::zero(), quaternion: Quaternion::unit() }
    }
}

} // verus!
