//! A 3x3 matrix of basis columns `i`, `j`, `k`.

use vstd::prelude::*;
use crate::num_traits::{Zero, One, Arith};
use crate::matrix::Unit;
use crate::vector::AxisUnits;
use crate::vector::vec3::Vec3;

verus! {

#[derive(Debug, PartialEq, PartialOrd, Clone, Copy)]
pub struct Matrix3<T> {
    pub i: Vec3<T>,
    pub j: Vec3<T>,
    pub k: Vec3<T>,
}

impl<T: Copy> Matrix3<T> {
    pub fn new(i: Vec3<T>, j: Vec3<T>, k: Vec3<T>) -> (r: Self)
        ensures
            r == (Matrix3 { i, j, k }),
    {
        Matrix3 { i, j, k }
    }

    /// Build from rows instead of columns.
    pub fn row_major_new(x: Vec3<T>, y: Vec3<T>, z: Vec3<T>) -> (r: Self)
        ensures
            r == (Matrix3 {
                i: Vec3 { x: x.x, y: y.x, z: z.x },
                j: Vec3 { x: x.y, y: y.y, z: z.y },
                k: Vec3 { x: x.z, y: y.z, z: z.z },
            }),
    {
        Matrix3 {
            i: Vec3 { x: x.x, y: y.x, z: z.x },
            j: Vec3 { x: x.y, y: y.y, z: z.y },
            k: Vec3 { x: x.z, y: y.z, z: z.z },
        }
    }
}

impl<T: Arith> Matrix3<T> {
    /// The columnwise sum.
    pub open spec fn add_s(self, rhs: Self) -> Self {
        Matrix3 { i: self.i.add_s(rhs.i), j: self.j.add_s(rhs.j), k: self.k.add_s(rhs.k) }
    }

    pub fn add(self, rhs: Self) -> (r: Self)
        ensures
            r == self.add_s(rhs),
    {
        Matrix3 { i: self.i.add(rhs.i), j: self.j.add(rhs.j), k: self.k.add(rhs.k) }
    }

    /// The matrix applied to a vector: the linear combination of the columns.
    pub open spec fn mul_vec_s(self, rhs: Vec3<T>) -> Vec3<T> {
        self.i.scale_s(rhs.x).add_s(self.j.scale_s(rhs.y)).add_s(self.k.scale_s(rhs.z))
    }

    pub fn mul_vec(self, rhs: Vec3<T>) -> (r: Vec3<T>)
        ensures
            r == self.mul_vec_s(rhs),
    {
        self.i.scale(rhs.x).add(self.j.scale(rhs.y)).add(self.k.scale(rhs.z))
    }

    /// The matrix product: this matrix applied to each column of the other.
    pub open spec fn mul_s(self, rhs: Self) -> Self {
        Matrix3 { i: self.mul_vec_s(rhs.i), j: self.mul_vec_s(rhs.j), k: self.mul_vec_s(rhs.k) }
    }

    pub fn mul(self, rhs: Self) -> (r: Self)
        ensures
            r == self.mul_s(rhs),
    {
        Matrix3 { i: self.mul_vec(rhs.i), j: self.mul_vec(rhs.j), k: self.mul_vec(rhs.k) }
    }
}

impl<T: Zero + One> Unit for Matrix3<T> {
    open spec fn unit_s() -> Self {
        Matrix3 {
            i: Vec3::<T>::unit_x_s(),
            j: Vec3::<T>::unit_y_s(),
            k: Vec3::<T>::unit_z_s(),
        }
    }

    fn unit() -> Self {
        Matrix3 { i: Vec3::unit_x(), j: Vec3::unit_y(), k: Vec3::unit_z() }
    }
}

} // verus!
