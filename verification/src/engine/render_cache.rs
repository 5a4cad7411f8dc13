//! The per-frame render cache: screen points per shape, and the memoized
//! perspective and camera matrices with their dirty keys.

use vstd::prelude::*;
use crate::num_traits::{Arith, Two, NegOne, SinCos, ScreenCast, div_or_zero_s, div_or_zero};
use crate::camera::Camera;
use crate::shape::Shape;
use crate::render::buffer::BufferSize;
use crate::vector::vec2::Vec2;
use crate::vector::vec3::Vec3;
use crate::vector::quaternion::Quaternion;
use crate::matrix::matrix4::Matrix4;

verus! {

/// The fixed projection parameters: field of view in degrees, near and far
/// clip distances.
#[derive(Clone, Copy)]
pub struct Projection<T> {
    pub fov: T,
    pub near: T,
    pub far: T,
}

/// The aspect ratio of a viewport (zero for a degenerate viewport).
pub open spec fn aspect_s<T: Arith + ScreenCast>(size: BufferSize) -> T {
    div_or_zero_s(T::from_usize_s(size.width), T::from_usize_s(size.height))
}

/// The perspective matrix a viewport size and projection parameters yield.
pub open spec fn perspective_of<T: Arith + Two + NegOne + SinCos + ScreenCast>(
    projection: Projection<T>,
    size: BufferSize,
) -> Matrix4<T> {
    Matrix4::new_perspective_s(projection.fov, aspect_s::<T>(size), projection.near, projection.far)
}

pub struct RenderCache<T> {
    pool: Vec<Vec<Vec2<isize>>>,
    persp_matrix: (Matrix4<T>, BufferSize),
    camera: (Matrix4<T>, Quaternion<T>, Vec3<T>),
    projection: Projection<T>,
}

fn scalar_eq3<T: Arith>(a: Vec3<T>, b: Vec3<T>) -> (r: bool)
    ensures
        r == (a == b),
{
    a.x.equals(b.x) && a.y.equals(b.y) && a.z.equals(b.z)
}

fn scalar_eq4<T: Arith>(a: Quaternion<T>, b: Quaternion<T>) -> (r: bool)
    ensures
        r == (a == b),
{
    a.x.equals(b.x) && a.y.equals(b.y) && a.z.equals(b.z) && a.w.equals(b.w)
}

impl<T: Arith + Two + NegOne + SinCos + ScreenCast> RenderCache<T> {
    pub closed spec fn spec_pool(self) -> Seq<Seq<Vec2<isize>>> {
        Seq::new(self.pool@.len(), |i: int| self.pool@[i]@)
    }

    pub closed spec fn spec_persp_matrix(self) -> Matrix4<T> {
        self.persp_matrix.0
    }

    pub closed spec fn spec_persp_size(self) -> BufferSize {
        self.persp_matrix.1
    }

    pub closed spec fn spec_camera_disp_matrix(self) -> Matrix4<T> {
        self.camera.0
    }

    pub closed spec fn spec_camera_quater(self) -> Quaternion<T> {
        self.camera.1
    }

    pub closed spec fn spec_camera_pos(self) -> Vec3<T> {
        self.camera.2
    }

    pub closed spec fn spec_projection(self) -> Projection<T> {
        self.projection
    }

    /// A cache ready for a frame: one empty slot per shape.
    pub fn init(shapes: &Vec<Shape<T>>, size: BufferSize, camera: &Camera<T>, projection: Projection<T>) -> (r:
        Self)
        ensures
            r.spec_pool().len() == shapes@.len(),
            forall|i: int| 0 <= i < shapes@.len() ==> (#[trigger] r.spec_pool()[i]).len() == 0,
            r.spec_persp_matrix() == perspective_of::<T>(projection, size),
            r.spec_persp_size() == size,
            r.spec_camera_disp_matrix() == camera.pos.neg_s().to_displacement_matrix_s(),
            r.spec_camera_quater() == camera.spec_quaternion().conjugated_s(),
            r.spec_camera_pos() == camera.pos,
            r.spec_projection() == projection,
    {
        let mut pool: Vec<Vec<Vec2<isize>>> = Vec::new();
        let n = shapes.len();
        let mut i: usize = 0;
        while i < n
            invariant
                i <= n,
                pool@.len() == i,
                forall|k: int| 0 <= k < i ==> (#[trigger] pool@[k])@.len() == 0,
            decreases n - i,
        {
            let vec: Vec<Vec2<isize>> = Vec::new();
            pool.push(vec);
            i = i + 1;
        }
        let aspect = div_or_zero(T::from_usize(size.width), T::from_usize(size.height));
        let persp_matrix = (
            Matrix4::new_perspective(projection.fov, aspect, projection.near, projection.far),
            size,
        );
        let camera_parts = (
            camera.to_displacement_matrix(),
            camera.to_rotation_quaternion(),
            camera.pos,
        );
        RenderCache { pool, persp_matrix, camera: camera_parts, projection }
    }

    /// Append one screen point to a shape's slot.
    pub fn push(&mut self, index: usize, value: Vec2<isize>)
        requires
            index < old(self).spec_pool().len(),
        ensures
            final(self).spec_pool().len() == old(self).spec_pool().len(),
            final(self).spec_pool()[index as int] == old(self).spec_pool()[index as int].push(
                value,
            ),
            forall|i: int|
                0 <= i < old(self).spec_pool().len() && i != index ==> final(self).spec_pool()[i]
                    == old(self).spec_pool()[i],
            final(self).spec_persp_matrix() == old(self).spec_persp_matrix(),
            final(self).spec_persp_size() == old(self).spec_persp_size(),
            final(self).spec_camera_disp_matrix() == old(self).spec_camera_disp_matrix(),
            final(self).spec_camera_quater() == old(self).spec_camera_quater(),
            final(self).spec_camera_pos() == old(self).spec_camera_pos(),
            final(self).spec_projection() == old(self).spec_projection(),
    {
        let slot = &mut self.pool[index];
        slot.push(value);
        proof {
            assert(self.spec_pool() =~= old(self).spec_pool().update(
                index as int,
                old(self).spec_pool()[index as int].push(value),
            ));
        }
    }

    /// One cached screen point.
    pub fn get(&self, index1: usize, index2: usize) -> (r: Vec2<isize>)
        requires
            index1 < self.spec_pool().len(),
            index2 < self.spec_pool()[index1 as int].len(),
        ensures
            r == self.spec_pool()[index1 as int][index2 as int],
    {
        self.pool[index1][index2]
    }

    /// Empty every slot; the memoized matrices are kept.
    pub fn clear(&mut self)
        ensures
            final(self).spec_pool().len() == old(self).spec_pool().len(),
            forall|i: int|
                0 <= i < old(self).spec_pool().len() ==> (#[trigger] final(self).spec_pool()[i]).len()
                    == 0,
            final(self).spec_persp_matrix() == old(self).spec_persp_matrix(),
            final(self).spec_persp_size() == old(self).spec_persp_size(),
            final(self).spec_camera_disp_matrix() == old(self).spec_camera_disp_matrix(),
            final(self).spec_camera_quater() == old(self).spec_camera_quater(),
            final(self).spec_camera_pos() == old(self).spec_camera_pos(),
            final(self).spec_projection() == old(self).spec_projection(),
    {
        let n = self.pool.len();
        let mut i: usize = 0;
        while i < n
            invariant
                n == self.pool@.len(),
                i <= n,
                self.pool@.len() == old(self).spec_pool().len(),
                forall|k: int| 0 <= k < i ==> (#[trigger] self.pool@[k])@.len() == 0,
                self.persp_matrix == old(self).persp_matrix,
                self.camera == old(self).camera,
                self.projection == old(self).projection,
            decreases n - i,
        {
            let slot = &mut self.pool[i];
            slot.clear();
            i = i + 1;
        }
    }

    pub fn persp_matrix(&self) -> (r: Matrix4<T>)
        ensures
            r == self.spec_persp_matrix(),
    {
        self.persp_matrix.0
    }

    pub fn persp_matrix_size(&self) -> (r: BufferSize)
        ensures
            r == self.spec_persp_size(),
    {
        self.persp_matrix.1
    }

    pub fn camera_disp_matrix(&self) -> (r: Matrix4<T>)
        ensures
            r == self.spec_camera_disp_matrix(),
    {
        self.camera.0
    }

    pub fn camera_quater(&self) -> (r: Quaternion<T>)
        ensures
            r == self.spec_camera_quater(),
    {
        self.camera.1
    }

    pub fn camera_pos(&self) -> (r: Vec3<T>)
        ensures
            r == self.spec_camera_pos(),
    {
        self.camera.2
    }

    /// Recompute the perspective matrix for a new viewport size.
    pub fn reload_persp_matrix(&mut self, new_size: BufferSize)
        ensures
            final(self).spec_persp_matrix() == perspective_of::<T>(
                old(self).spec_projection(),
                new_size,
            ),
            final(self).spec_persp_size() == new_size,
            final(self).spec_pool() == old(self).spec_pool(),
            final(self).spec_camera_disp_matrix() == old(self).spec_camera_disp_matrix(),
            final(self).spec_camera_quater() == old(self).spec_camera_quater(),
            final(self).spec_camera_pos() == old(self).spec_camera_pos(),
            final(self).spec_projection() == old(self).spec_projection(),
    {
        let aspect = div_or_zero(T::from_usize(new_size.width), T::from_usize(new_size.height));
        let matrix = Matrix4::new_perspective(
            self.projection.fov,
            aspect,
            self.projection.near,
            self.projection.far,
        );
        self.persp_matrix = (matrix, new_size);
    }

    /// Recompute the camera's displacement matrix.
    pub fn reload_camera_disp_matrix(&mut self, camera: &Camera<T>)
        ensures
            final(self).spec_camera_disp_matrix() == camera.pos.neg_s().to_displacement_matrix_s(),
            final(self).spec_camera_quater() == old(self).spec_camera_quater(),
            final(self).spec_camera_pos() == camera.pos,
            final(self).spec_pool() == old(self).spec_pool(),
            final(self).spec_persp_matrix() == old(self).spec_persp_matrix(),
            final(self).spec_persp_size() == old(self).spec_persp_size(),
            final(self).spec_projection() == old(self).spec_projection(),
    {
        self.camera = (camera.to_displacement_matrix(), self.camera.1, camera.pos);
    }

    /// Recompute the camera's rotation conjugate.
    pub fn reload_camera_quater(&mut self, camera: &Camera<T>)
        ensures
            final(self).spec_camera_quater() == camera.spec_quaternion().conjugated_s(),
            final(self).spec_camera_disp_matrix() == old(self).spec_camera_disp_matrix(),
            final(self).spec_camera_pos() == old(self).spec_camera_pos(),
            final(self).spec_pool() == old(self).spec_pool(),
            final(self).spec_persp_matrix() == old(self).spec_persp_matrix(),
            final(self).spec_persp_size() == old(self).spec_persp_size(),
            final(self).spec_projection() == old(self).spec_projection(),
    {
        self.camera = (self.camera.0, camera.to_rotation_quaternion(), self.camera.2);
    }

    /// Refresh the memoized values, each behind its own dirty check: the
    /// perspective matrix is recomputed only when the viewport size changed,
    /// the camera matrices only when the camera's position or orientation
    /// changed.  An unchanged frame recomputes nothing.
    pub fn reload(&mut self, size: BufferSize, camera: &Camera<T>)
        ensures
            final(self).spec_pool() == old(self).spec_pool(),
            final(self).spec_projection() == old(self).spec_projection(),
            final(self).spec_persp_matrix() == if size == old(self).spec_persp_size() {
                old(self).spec_persp_matrix()
            } else {
                perspective_of::<T>(old(self).spec_projection(), size)
            },
            final(self).spec_persp_size() == if size == old(self).spec_persp_size() {
                old(self).spec_persp_size()
            } else {
                size
            },
            final(self).spec_camera_disp_matrix() == if camera.pos == old(
                self,
            ).spec_camera_pos() {
                old(self).spec_camera_disp_matrix()
            } else {
                camera.pos.neg_s().to_displacement_matrix_s()
            },
            final(self).spec_camera_quater() == if camera.spec_quaternion().conjugated_s() == old(
                self,
            ).spec_camera_quater() {
                old(self).spec_camera_quater()
            } else {
                camera.spec_quaternion().conjugated_s()
            },
            final(self).spec_camera_pos() == camera.pos || final(self).spec_camera_pos() == old(
                self,
            ).spec_camera_pos(),
    {
        if !(self.persp_matrix.1 == size) {
            self.reload_persp_matrix(size);
        }
        if !scalar_eq3(self.camera.2, camera.pos) {
            self.reload_camera_disp_matrix(camera);
        }
        if !scalar_eq4(self.camera.1, camera.to_rotation_quaternion()) {
            self.reload_camera_quater(camera);
        }
    }
}

/// What the memoized perspective pair becomes on one refresh.
pub open spec fn reloaded_persp<T: Arith + Two + NegOne + SinCos + ScreenCast>(
    persp: (Matrix4<T>, BufferSize),
    projection: Projection<T>,
    size: BufferSize,
) -> (Matrix4<T>, BufferSize) {
    if size == persp.1 {
        persp
    } else {
        (perspective_of::<T>(projection, size), size)
    }
}

/// Resizing the viewport recomputes the memoized perspective matrix exactly
/// once: the refresh after the size change recomputes it, and every further
/// refresh with an unchanged size leaves it untouched.
pub proof fn lemma_viewport_memo<T: Arith + Two + NegOne + SinCos + ScreenCast>(
    persp: (Matrix4<T>, BufferSize),
    projection: Projection<T>,
    size: BufferSize,
)
    ensures
        reloaded_persp(persp, projection, size).1 == size,
        reloaded_persp(reloaded_persp(persp, projection, size), projection, size) == reloaded_persp(
            persp,
            projection,
            size,
        ),
        size == persp.1 ==> reloaded_persp(persp, projection, size) == persp,
        size != persp.1 ==> reloaded_persp(persp, projection, size).0 == perspective_of::<T>(
            projection,
            size,
        ),
{
}

} // verus!
