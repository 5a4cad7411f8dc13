//! Wireframe shapes: vertices, edges over them, and a rotation pivot.

use vstd::prelude::*;
use crate::num_traits::{Arith, Sqrt, SinCos, Two};
use crate::vector::{Axis, Vector};
use crate::vector::vec3::{Vec3, rotated_s};
use crate::vector::quaternion::{Quaternion, qmul_s};
use crate::matrix::Unit;

pub mod cube;

verus! {

/// One edge: a pair of indices into a shape's vertex list.
#[derive(Clone, Copy, Debug, PartialEq, Eq, Structural)]
pub struct EdgeUnit(pub usize, pub usize);

/// One rotation request: an axis and an angle in degrees.
#[derive(Clone, Copy, Debug)]
pub struct AngleUnit<T>(pub Axis, pub T);

impl<T: Arith + SinCos + Two> AngleUnit<T> {
    pub fn new(axis: Axis, degrees: T) -> (r: Self)
        ensures
            r == (AngleUnit(axis, degrees)),
    {
        AngleUnit(axis, degrees)
    }

    /// The axis-angle quaternion of this request: the angle turned into
    /// radians and halved, the axis scaled by its sine.
    pub open spec fn to_quater_s(self) -> Quaternion<T> {
        Quaternion::from_angle_s(self.1.to_radians_s(), self.0.to_vec_s())
    }

    pub fn to_quater(&self) -> (r: Quaternion<T>)
        ensures
            r == self.to_quater_s(),
    {
        let rad = self.1.to_radians();
        let axis: Vec3<T> = self.0.to_vec();
        Quaternion::from_angle(rad, axis)
    }

    /// The left-to-right product of the requests' quaternions.  The product
    /// is not normalized here, and the order matters: quaternion products do
    /// not commute.
    pub open spec fn unified_quater_s(angles: Seq<AngleUnit<T>>) -> Quaternion<T>
        decreases angles.len(),
    {
        if angles.len() == 0 {
            Quaternion::<T>::unit_s()
        } else {
            qmul_s(Self::unified_quater_s(angles.drop_last()), angles.last().to_quater_s())
        }
    }

    pub fn unification_to_quater(angles: &[AngleUnit<T>]) -> (r: Quaternion<T>)
        ensures
            r == Self::unified_quater_s(angles@),
    {
        let mut q: Quaternion<T> = Quaternion::unit();
        let mut i: usize = 0;
        while i < angles.len()
            invariant
                i <= angles@.len(),
                q == Self::unified_quater_s(angles@.take(i as int)),
            decreases angles@.len() - i,
        {
            q = q.mul(angles[i].to_quater());
            proof {
                assert(angles@.take(i + 1 as int).drop_last() =~= angles@.take(i as int));
                assert(angles@.take(i + 1 as int).last() == angles@[i as int]);
            }
            i = i + 1;
        }
        proof {
            assert(angles@.take(angles@.len() as int) =~= angles@);
        }
        q
    }
}

/// A shape: vertices in object space, edges as validated index pairs, and the
/// center the shape rotates about.
#[derive(Clone)]
pub struct Shape<T> {
    vertexes: Vec<Vec3<T>>,
    edges: Vec<EdgeUnit>,
    center: Vec3<T>,
}

impl<T: Arith> Shape<T> {
    pub closed spec fn spec_vertexes(self) -> Seq<Vec3<T>> {
        self.vertexes@
    }

    pub closed spec fn spec_edges(self) -> Seq<EdgeUnit> {
        self.edges@
    }

    pub closed spec fn spec_center(self) -> Vec3<T> {
        self.center
    }

    /// Every edge refers to two existing vertices.
    pub open spec fn wf(self) -> bool {
        forall|j: int|
            0 <= j < self.spec_edges().len() ==> (#[trigger] self.spec_edges()[j]).0
                < self.spec_vertexes().len() && self.spec_edges()[j].1 < self.spec_vertexes().len()
    }

    /// Build a shape.  Edges are validated here, at construction, so that
    /// the per-frame drawing path never needs an index check.
    pub fn new(vertexes: Vec<Vec3<T>>, edges: Vec<EdgeUnit>, center: Vec3<T>) -> (r: Self)
        requires
            forall|j: int|
                0 <= j < edges@.len() ==> (#[trigger] edges@[j]).0 < vertexes@.len()
                    && edges@[j].1 < vertexes@.len(),
        ensures
            r.spec_vertexes() == vertexes@,
            r.spec_edges() == edges@,
            r.spec_center() == center,
            r.wf(),
    {
        Shape { vertexes, edges, center }
    }

    pub fn edges(&self) -> (r: &Vec<EdgeUnit>)
        ensures
            r@ == self.spec_edges(),
    {
        &self.edges
    }

    pub fn vertexes(&self) -> (r: &Vec<Vec3<T>>)
        ensures
            r@ == self.spec_vertexes(),
    {
        &self.vertexes
    }

    pub fn center(&self) -> (r: &Vec3<T>)
        ensures
            *r == self.spec_center(),
    {
        &self.center
    }

    /// What one vertex becomes when the shape turns by `q` about its center.
    pub open spec fn vertex_rotated_s(self, v: Vec3<T>, q: Quaternion<T>) -> Vec3<T> {
        rotated_s(v.sub_s(self.spec_center()), q).add_s(self.spec_center())
    }

    /// Rotate every vertex by the quaternion about the shape's own center.
    /// The center itself, and the edges, never move.
    pub fn raw_rotate(&mut self, quater: Quaternion<T>)
        ensures
            final(self).spec_center() == old(self).spec_center(),
            final(self).spec_edges() == old(self).spec_edges(),
            final(self).spec_vertexes().len() == old(self).spec_vertexes().len(),
            forall|i: int|
                0 <= i < old(self).spec_vertexes().len() ==> final(self).spec_vertexes()[i]
                    == old(self).vertex_rotated_s(old(self).spec_vertexes()[i], quater),
            old(self).wf() ==> final(self).wf(),
    {
        let n = self.vertexes.len();
        let mut i: usize = 0;
        while i < n
            invariant
                n == self.vertexes@.len(),
                i <= n,
                self.center == old(self).spec_center(),
                self.edges@ == old(self).spec_edges(),
                self.vertexes@.len() == old(self).spec_vertexes().len(),
                forall|k: int|
                    0 <= k < i ==> self.vertexes@[k] == old(self).vertex_rotated_s(
                        old(self).spec_vertexes()[k],
                        quater,
                    ),
                forall|k: int| i <= k < n ==> self.vertexes@[k] == old(self).spec_vertexes()[k],
            decreases n - i,
        {
            let v = self.vertexes[i];
            self.vertexes[i] = v.sub(self.center).to_raw_rotated(quater).add(self.center);
            i = i + 1;
        }
    }

    /// Rotate every vertex by the quaternion about the world origin, not the
    /// shape's center.  The center and the edges are kept.
    pub fn rotate_about_origin(&mut self, quater: Quaternion<T>)
        ensures
            final(self).spec_center() == old(self).spec_center(),
            final(self).spec_edges() == old(self).spec_edges(),
            final(self).spec_vertexes().len() == old(self).spec_vertexes().len(),
            forall|i: int|
                0 <= i < old(self).spec_vertexes().len() ==> final(self).spec_vertexes()[i]
                    == rotated_s(old(self).spec_vertexes()[i], quater),
            old(self).wf() ==> final(self).wf(),
    {
        let n = self.vertexes.len();
        let mut i: usize = 0;
        while i < n
            invariant
                n == self.vertexes@.len(),
                i <= n,
                self.center == old(self).spec_center(),
                self.edges@ == old(self).spec_edges(),
                self.vertexes@.len() == old(self).spec_vertexes().len(),
                forall|k: int|
                    0 <= k < i ==> self.vertexes@[k] == rotated_s(
                        old(self).spec_vertexes()[k],
                        quater,
                    ),
                forall|k: int| i <= k < n ==> self.vertexes@[k] == old(self).spec_vertexes()[k],
            decreases n - i,
        {
            let v = self.vertexes[i];
            self.vertexes[i] = v.to_raw_rotated(quater);
            i = i + 1;
        }
    }

    /// Rotate by a list of axis-angle requests: their product, normalized
    /// before it is applied.
    pub fn rotate(&mut self, angles: &[AngleUnit<T>])
        where T: SinCos + Two + Sqrt
        ensures
            final(self).spec_center() == old(self).spec_center(),
            final(self).spec_edges() == old(self).spec_edges(),
            final(self).spec_vertexes().len() == old(self).spec_vertexes().len(),
            forall|i: int|
                0 <= i < old(self).spec_vertexes().len() ==> final(self).spec_vertexes()[i]
                    == old(self).vertex_rotated_s(
                    old(self).spec_vertexes()[i],
                    AngleUnit::<T>::unified_quater_s(angles@).normalized_s(),
                ),
            old(self).wf() ==> final(self).wf(),
    {
        let mut q = AngleUnit::unification_to_quater(angles);
        q.normalize();
        self.raw_rotate(q);
    }

    /// Every vertex shifted by the shape's center: the vertices as world
    /// points around the pivot.
    pub fn into_projected_vertexes(&self) -> (r: Vec<Vec3<T>>)
        ensures
            r@.len() == self.spec_vertexes().len(),
            forall|i: int|
                0 <= i < r@.len() ==> r@[i] == self.spec_vertexes()[i].add_s(self.spec_center()),
    {
        let n = self.vertexes.len();
        let mut vec: Vec<Vec3<T>> = Vec::new();
        let mut i: usize = 0;
        while i < n
            invariant
                n == self.vertexes@.len(),
                i <= n,
                vec@.len() == i,
                self.vertexes@ == self.spec_vertexes(),
                self.center == self.spec_center(),
                forall|k: int|
                    0 <= k < i ==> vec@[k] == self.spec_vertexes()[k].add_s(self.spec_center()),
            decreases n - i,
        {
            vec.push(self.vertexes[i].add(self.center));
            i = i + 1;
        }
        vec
    }
}

} // verus!
