//! An axis-aligned cube, built as a wireframe shape.

use vstd::prelude::*;
use crate::num_traits::{Arith, Two, div_or_zero, div_or_zero_s};
use crate::shape::{EdgeUnit, Shape};
use crate::vector::vec3::Vec3;

verus! {

#[derive(Clone)]
pub struct Cube<T> {
    center: Vec3<T>,
    edge_len: T,
}

impl<T: Arith + Two> Cube<T> {
    pub closed spec fn spec_center(self) -> Vec3<T> {
        self.center
    }

    pub closed spec fn spec_edge_len(self) -> T {
        self.edge_len
    }

    pub fn new(center: Vec3<T>, edge_len: T) -> (r: Self)
        ensures
            r.spec_center() == center,
            r.spec_edge_len() == edge_len,
    {
        Cube { center, edge_len }
    }

    /// A corner of the cube: the center offset by half the edge length along
    /// each axis, the signs chosen per corner.
    pub open spec fn corner_s(self, sx: bool, sy: bool, sz: bool) -> Vec3<T> {
        let half = div_or_zero_s(self.spec_edge_len(), T::two_s());
        Vec3 {
            x: if sx {
                self.spec_center().x.add_s(half)
            } else {
                self.spec_center().x.sub_s(half)
            },
            y: if sy {
                self.spec_center().y.add_s(half)
            } else {
                self.spec_center().y.sub_s(half)
            },
            z: if sz {
                self.spec_center().z.add_s(half)
            } else {
                self.spec_center().z.sub_s(half)
            },
        }
    }

    /// The cube's wireframe: its eight corners, and the twelve edges between
    /// corners that differ in exactly one axis.
    pub fn create(&self) -> (r: Shape<T>)
        ensures
            r.wf(),
            r.spec_center() == self.spec_center(),
            r.spec_vertexes().len() == 8,
            r.spec_edges().len() == 12,
            forall|i: int|
                0 <= i < 8 ==> r.spec_vertexes()[i] == self.corner_s(i >= 4, i % 4 >= 2, i % 2 == 1),
            r.spec_edges()[0] == (EdgeUnit(0, 1)),
            r.spec_edges()[1] == (EdgeUnit(0, 2)),
            r.spec_edges()[2] == (EdgeUnit(0, 4)),
            r.spec_edges()[3] == (EdgeUnit(1, 3)),
            r.spec_edges()[4] == (EdgeUnit(1, 5)),
            r.spec_edges()[5] == (EdgeUnit(2, 3)),
            r.spec_edges()[6] == (EdgeUnit(2, 6)),
            r.spec_edges()[7] == (EdgeUnit(3, 7)),
            r.spec_edges()[8] == (EdgeUnit(4, 5)),
            r.spec_edges()[9] == (EdgeUnit(4, 6)),
            r.spec_edges()[10] == (EdgeUnit(5, 7)),
            r.spec_edges()[11] == (EdgeUnit(6, 7)),
    {
        let half_edge = div_or_zero(self.edge_len, T::two());
        let x_1 = self.center.x.sub(half_edge);
        let x_2 = self.center.x.add(half_edge);
        let y_1 = self.center.y.sub(half_edge);
        let y_2 = self.center.y.add(half_edge);
        let z_1 = self.center.z.sub(half_edge);
        let z_2 = self.center.z.add(half_edge);

        let mut vertexes: Vec<Vec3<T>> = Vec::new();
        vertexes.push(Vec3 { x: x_1, y: y_1, z: z_1 });
        vertexes.push(Vec3 { x: x_1, y: y_1, z: z_2 });
        vertexes.push(Vec3 { x: x_1, y: y_2, z: z_1 });
        vertexes.push(Vec3 { x: x_1, y: y_2, z: z_2 });
        vertexes.push(Vec3 { x: x_2, y: y_1, z: z_1 });
        vertexes.push(Vec3 { x: x_2, y: y_1, z: z_2 });
        vertexes.push(Vec3 { x: x_2, y: y_2, z: z_1 });
        vertexes.push(Vec3 { x: x_2, y: y_2, z: z_2 });

        let mut edges: Vec<EdgeUnit> = Vec::new();
        edges.push(EdgeUnit(0, 1));
        edges.push(EdgeUnit(0, 2));
        edges.push(EdgeUnit(0, 4));
        edges.push(EdgeUnit(1, 3));
        edges.push(EdgeUnit(1, 5));
        edges.push(EdgeUnit(2, 3));
        edges.push(EdgeUnit(2, 6));
        edges.push(EdgeUnit(3, 7));
        edges.push(EdgeUnit(4, 5));
        edges.push(EdgeUnit(4, 6));
        edges.push(EdgeUnit(5, 7));
        edges.push(EdgeUnit(6, 7));

        Shape::new(vertexes, edges, self.center)
    }
}

} // verus!
