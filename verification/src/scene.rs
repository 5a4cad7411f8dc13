//! A scene: the shapes it owns, and one camera.

use vstd::prelude::*;
use crate::num_traits::{Arith, SinCos, Two};
use crate::camera::Camera;
use crate::shape::{AngleUnit, Shape};
use crate::vector::vec3::{Vec3, rotated_s};
use crate::vector::quaternion::Quaternion;

verus! {

pub struct Scene<T> {
    /// The shapes; read them through [`Scene::shapes`] and the scene's
    /// rotation methods, which keep every shape well formed.
    pub shapes: Vec<Shape<T>>,
    pub camera: Camera<T>,
}

impl<T: Arith> Scene<T> {
    pub open spec fn spec_shapes(self) -> Seq<Shape<T>> {
        self.shapes@
    }

    pub open spec fn spec_camera(self) -> Camera<T> {
        self.camera
    }

    /// Every shape's edges refer to existing vertices.
    pub open spec fn wf(self) -> bool {
        forall|i: int| 0 <= i < self.spec_shapes().len() ==> (#[trigger] self.spec_shapes()[i]).wf()
    }

    pub fn new(shapes: Vec<Shape<T>>, camera: Camera<T>) -> (r: Self)
        ensures
            r.spec_shapes() == shapes@,
            r.spec_camera() == camera,
    {
        Scene { shapes, camera }
    }

    pub fn shapes(&self) -> (r: &Vec<Shape<T>>)
        ensures
            r@ == self.spec_shapes(),
    {
        &self.shapes
    }

    /// Rotate every vertex of every shape about the world origin.
    pub fn raw_rotate(&mut self, quater: Quaternion<T>)
        ensures
            final(self).spec_camera() == old(self).spec_camera(),
            final(self).spec_shapes().len() == old(self).spec_shapes().len(),
            forall|i: int, j: int|
                0 <= i < old(self).spec_shapes().len() && 0 <= j < old(self).spec_shapes()[i].spec_vertexes().len()
                    ==> (#[trigger] final(self).spec_shapes()[i].spec_vertexes()[j]) == rotated_s(
                    old(self).spec_shapes()[i].spec_vertexes()[j],
                    quater,
                ),
            forall|i: int|
                0 <= i < old(self).spec_shapes().len() ==> (#[trigger] final(self).spec_shapes()[i]).spec_edges()
                    == old(self).spec_shapes()[i].spec_edges() && final(self).spec_shapes()[i].spec_center()
                    == old(self).spec_shapes()[i].spec_center() && final(self).spec_shapes()[i].spec_vertexes().len()
                    == old(self).spec_shapes()[i].spec_vertexes().len(),
            old(self).wf() ==> final(self).wf(),
    {
        let n = self.shapes.len();
        let mut i: usize = 0;
        while i < n
            invariant
                n == self.shapes@.len(),
                i <= n,
                self.camera == old(self).spec_camera(),
                self.shapes@.len() == old(self).spec_shapes().len(),
                forall|k: int, j: int|
                    0 <= k < i && 0 <= j < old(self).spec_shapes()[k].spec_vertexes().len() ==> (
                    #[trigger] self.shapes@[k].spec_vertexes()[j]) == rotated_s(
                        old(self).spec_shapes()[k].spec_vertexes()[j],
                        quater,
                    ),
                forall|k: int|
                    0 <= k < i ==> (#[trigger] self.shapes@[k]).spec_edges() == old(
                        self,
                    ).spec_shapes()[k].spec_edges() && self.shapes@[k].spec_center() == old(
                        self,
                    ).spec_shapes()[k].spec_center() && self.shapes@[k].spec_vertexes().len()
                        == old(self).spec_shapes()[k].spec_vertexes().len(),
                forall|k: int| i <= k < n ==> self.shapes@[k] == old(self).spec_shapes()[k],
            decreases n - i,
        {
            let shape = &mut self.shapes[i];
            shape.rotate_about_origin(quater);
            i = i + 1;
        }
    }

    /// Rotate every shape about its own center.
    pub fn raw_rotate_shapes(&mut self, quater: Quaternion<T>)
        ensures
            final(self).spec_camera() == old(self).spec_camera(),
            final(self).spec_shapes().len() == old(self).spec_shapes().len(),
            forall|i: int, j: int|
                0 <= i < old(self).spec_shapes().len() && 0 <= j < old(self).spec_shapes()[i].spec_vertexes().len()
                    ==> (#[trigger] final(self).spec_shapes()[i].spec_vertexes()[j]) == old(
                    self,
                ).spec_shapes()[i].vertex_rotated_s(
                    old(self).spec_shapes()[i].spec_vertexes()[j],
                    quater,
                ),
            forall|i: int|
                0 <= i < old(self).spec_shapes().len() ==> (#[trigger] final(self).spec_shapes()[i]).spec_edges()
                    == old(self).spec_shapes()[i].spec_edges() && final(self).spec_shapes()[i].spec_center()
                    == old(self).spec_shapes()[i].spec_center() && final(self).spec_shapes()[i].spec_vertexes().len()
                    == old(self).spec_shapes()[i].spec_vertexes().len(),
            old(self).wf() ==> final(self).wf(),
    {
        let n = self.shapes.len();
        let mut i: usize = 0;
        while i < n
            invariant
                n == self.shapes@.len(),
                i <= n,
                self.camera == old(self).spec_camera(),
                self.shapes@.len() == old(self).spec_shapes().len(),
                forall|k: int, j: int|
                    0 <= k < i && 0 <= j < old(self).spec_shapes()[k].spec_vertexes().len() ==> (
                    #[trigger] self.shapes@[k].spec_vertexes()[j]) == old(
                        self,
                    ).spec_shapes()[k].vertex_rotated_s(
                        old(self).spec_shapes()[k].spec_vertexes()[j],
                        quater,
                    ),
                forall|k: int|
                    0 <= k < i ==> (#[trigger] self.shapes@[k]).spec_edges() == old(
                        self,
                    ).spec_shapes()[k].spec_edges() && self.shapes@[k].spec_center() == old(
                        self,
                    ).spec_shapes()[k].spec_center() && self.shapes@[k].spec_vertexes().len()
                        == old(self).spec_shapes()[k].spec_vertexes().len(),
                forall|k: int| i <= k < n ==> self.shapes@[k] == old(self).spec_shapes()[k],
            decreases n - i,
        {
            let shape = &mut self.shapes[i];
            shape.raw_rotate(quater);
            i = i + 1;
        }
    }

    /// Rotate the whole scene about the origin by a list of axis-angle
    /// requests: their raw, unnormalized product.
    pub fn rotate(&mut self, angles: &[AngleUnit<T>])
        where T: SinCos + Two
        ensures
            final(self).spec_camera() == old(self).spec_camera(),
            final(self).spec_shapes().len() == old(self).spec_shapes().len(),
            forall|i: int, j: int|
                0 <= i < old(self).spec_shapes().len() && 0 <= j < old(self).spec_shapes()[i].spec_vertexes().len()
                    ==> (#[trigger] final(self).spec_shapes()[i].spec_vertexes()[j]) == rotated_s(
                    old(self).spec_shapes()[i].spec_vertexes()[j],
                    AngleUnit::<T>::unified_quater_s(angles@),
                ),
            old(self).wf() ==> final(self).wf(),
    {
        let quater = AngleUnit::unification_to_quater(angles);
        self.raw_rotate(quater);
    }
}

} // verus!
