//! Common behaviour of the vector-like types (`Vec2`, `Vec3`, `Vec4`,
//! `Quaternion`): normalization, projection, and the canonical axis units.

use vstd::prelude::*;
use crate::num_traits::{Zero, One};

pub mod vec2;
pub mod vec3;
pub mod vec4;
pub mod quaternion;

verus! {

/// A type with distinguished unit values along the three canonical axes.
pub trait AxisUnits: Sized + Copy {
    spec fn unit_x_s() -> Self;

    spec fn unit_y_s() -> Self;

    spec fn unit_z_s() -> Self;

    fn unit_x() -> (r: Self)
        ensures
            r == Self::unit_x_s(),
    ;

    fn unit_y() -> (r: Self)
        ensures
            r == Self::unit_y_s(),
    ;

    fn unit_z() -> (r: Self)
        ensures
            r == Self::unit_z_s(),
    ;
}

/// One of the three canonical rotation axes.
#[derive(Clone, Copy, Debug, PartialEq, Eq, Structural)]
pub enum Axis {
    X,
    Y,
    Z,
}

impl Axis {
    /// The axis as a unit value of any type with axis units.
    pub open spec fn to_vec_s<T: AxisUnits>(self) -> T {
        match self {
            Axis::X => T::unit_x_s(),
            Axis::Y => T::unit_y_s(),
            Axis::Z => T::unit_z_s(),
        }
    }

    pub fn to_vec<T: AxisUnits>(self) -> (r: T)
        ensures
            r == self.to_vec_s::<T>(),
    {
        match self {
            Axis::X => T::unit_x(),
            Axis::Y => T::unit_y(),
            Axis::Z => T::unit_z(),
        }
    }
}

/// Normalization and projection, shared by all vector-like types.
///
/// A zero norm or a zero divisor is a degenerate input, not an error: both
/// operations then return the zero value.
pub trait Vector: Zero + One + AxisUnits {
    /// What normalizing this value yields.
    spec fn normalized_s(self) -> Self;

    /// What projecting this value (dividing by its last coordinate) yields.
    spec fn projected_s(self) -> Self;

    fn nullify(&mut self)
        ensures
            *final(self) == Self::zero_s(),
    ;

    fn normalize(&mut self)
        ensures
            *final(self) == old(self).normalized_s(),
    ;

    fn to_normalized(&self) -> (r: Self)
        ensures
            r == self.normalized_s(),
    ;

    fn project(&mut self)
        ensures
            *final(self) == old(self).projected_s(),
    ;

    fn to_projected(&self) -> (r: Self)
        ensures
            r == self.projected_s(),
    ;
}

} // verus!
