//! A 2x2 matrix of basis columns `i`, `j`.

use vstd::prelude::*;
use crate::num_traits::{Zero, One, Arith, SinCos, NegOne};
use crate::matrix::Unit;
use crate::vector::AxisUnits;
use crate::vector::vec2::Vec2;

verus! {

#[derive(Debug, PartialEq, PartialOrd, Clone, Copy)]
pub struct Matrix2<T> {
    pub i: Vec2<T>,
    pub j: Vec2<T>,
}

impl<T: Copy> Matrix2<T> {
    pub fn new(i: Vec2<T>, j: Vec2<T>) -> (r: Self)
        ensures
            r == (Matrix2 { i, j }),
    {
        Matrix2 { i, j }
    }

    /// Build from rows instead of columns.
    pub fn row_major_new(x: Vec2<T>, y: Vec2<T>) -> (r: Self)
        ensures
            r == (Matrix2 { i: Vec2 { x: x.x, y: y.x }, j: Vec2 { x: x.y, y: y.y } }),
    {
        Matrix2 { i: Vec2 { x: x.x, y: y.x }, j: Vec2 { x: x.y, y: y.y } }
    }
}

impl<T: Arith> Matrix2<T> {
    /// The columnwise sum.
    pub open spec fn add_s(self, rhs: Self) -> Self {
        Matrix2 { i: self.i.add_s(rhs.i), j: self.j.add_s(rhs.j) }
    }

    pub fn add(self, rhs: Self) -> (r: Self)
        ensures
            r == self.add_s(rhs),
    {
        Matrix2 { i: self.i.add(rhs.i), j: self.j.add(rhs.j) }
    }

    /// The matrix applied to a vector: the linear combination of the columns.
    pub open spec fn mul_vec_s(self, rhs: Vec2<T>) -> Vec2<T> {
        self.i.scale_s(rhs.x).add_s(self.j.scale_s(rhs.y))
    }

    pub fn mul_vec(self, rhs: Vec2<T>) -> (r: Vec2<T>)
        ensures
            r == self.mul_vec_s(rhs),
    {
        self.i.scale(rhs.x).add(self.j.scale(rhs.y))
    }

    /// The matrix product: this matrix applied to each column of the other.
    pub open spec fn mul_s(self, rhs: Self) -> Self {
        Matrix2 { i: self.mul_vec_s(rhs.i), j: self.mul_vec_s(rhs.j) }
    }

    pub fn mul(self, rhs: Self) -> (r: Self)
        ensures
            r == self.mul_s(rhs),
    {
        Matrix2 { i: self.mul_vec(rhs.i), j: self.mul_vec(rhs.j) }
    }
}

impl<T: Arith + SinCos + NegOne> Matrix2<T> {
    /// The rotation matrix of an angle in radians.
    pub open spec fn rotate_matrix_s(rad: T) -> Self {
        Matrix2 {
            i: Vec2 { x: rad.cos_s(), y: rad.sin_s() },
            j: Vec2 { x: rad.sin_s().neg_s(), y: rad.cos_s() },
        }
    }

    pub fn rotate_matrix(rad: T) -> (r: Self)
        ensures
            r == Self::rotate_matrix_s(rad),
    {
        let sc = rad.sin_cos();
        Matrix2 { i: Vec2 { x: sc.1, y: sc.0 }, j: Vec2 { x: sc.0.neg(), y: sc.1 } }
    }
}

impl<T: Zero + One> Unit for Matrix2<T> {
    open spec fn unit_s() -> Self {
        Matrix2 { i: Vec2::<T>::unit_x_s(), j: Vec2::<T>::unit_y_s() }
    }

    fn unit() -> Self {
        Matrix2 { i: Vec2::unit_x(), j: Vec2::unit_y() }
    }
}

} // verus!
