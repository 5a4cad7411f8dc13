//! The engine: scene state, per-tick rotation, input handling, and the
//! per-frame transformation pipeline feeding the rasterizer.

use vstd::prelude::*;
use crate::num_traits::{Arith, Sqrt, SinCos, Two, NegOne, Zero, One, ScreenCast, div_or_zero, div_or_zero_s};
use crate::color::Color;
use crate::camera::Camera;
use crate::scene::Scene;
use crate::shape::{AngleUnit, Shape};
use crate::render::buffer::{Buffer, BufferSize, COORD_LIMIT, line_pixels, lemma_pixel_index};
use crate::vector::{Axis, Vector};
use crate::vector::vec2::Vec2;
use crate::vector::vec3::{Vec3, rotated_s};
use crate::vector::vec4::Vec4;
use crate::vector::quaternion::{Quaternion, qmul_s};
use crate::matrix::matrix4::Matrix4;
use crate::engine::render_cache::{RenderCache, Projection, perspective_of};

pub mod render_cache;

verus! {

/// The keys the engine reacts to.
#[derive(Clone, Copy, Debug, PartialEq, Eq, Structural)]
pub enum Key {
    W,
    A,
    S,
    D,
    Space,
    LeftShift,
    Up,
    Down,
    Left,
    Right,
    Other,
}

/// What an application must offer the render loop: react to a key, repaint a
/// buffer, and report whether a repaint is due.
pub trait AppHandler {
    fn handle_input(&mut self, key: Key);

    fn produce_frame(&mut self, buffer: &mut Buffer);

    fn need_to_redraw(&self) -> bool;

    fn redrawed(&mut self);
}

/// One screen coordinate clamped into the rasterizer's range.
pub open spec fn clamp_coord(i: isize) -> isize {
    if i > COORD_LIMIT {
        COORD_LIMIT
    } else if i < ((0 - COORD_LIMIT as int) as isize) {
        ((0 - COORD_LIMIT as int) as isize)
    } else {
        i
    }
}

/// The screen pixel of a point in normalized device coordinates: `x` maps
/// `[-1, 1]` onto the width, `y` onto the height flipped (screen rows grow
/// downward while device `y` grows upward), both clamped to the rasterizer's
/// coordinate range.
pub open spec fn to_real_s<T: Arith + Two + ScreenCast>(v: Vec2<T>, size: BufferSize) -> Vec2<
    isize,
> {
    let x = div_or_zero_s(v.x.add_s(T::one_s()), T::two_s()).mul_s(
        T::from_usize_s(size.width),
    ).into_isize_s();
    let y = T::one_s().sub_s(div_or_zero_s(v.y.add_s(T::one_s()), T::two_s())).mul_s(
        T::from_usize_s(size.height),
    ).into_isize_s();
    Vec2 { x: clamp_coord(x), y: clamp_coord(y) }
}

/// Where one object-space vertex lands on the screen: lifted to homogeneous
/// coordinates, displaced by the camera, rotated as a pure direction (with
/// `w` forced to zero so the camera's position is not rotated, then
/// restored), projected by the perspective matrix, perspective-divided, and
/// mapped to a pixel.
pub open spec fn project_vertex_s<T: Arith + Sqrt + Two + ScreenCast>(
    v: Vec3<T>,
    disp: Matrix4<T>,
    rotq: Quaternion<T>,
    persp: Matrix4<T>,
    size: BufferSize,
) -> Vec2<isize> {
    let lifted = Vec4 { x: v.x, y: v.y, z: v.z, w: T::one_s() };
    let moved = disp.mul_vec_s(lifted);
    let direction = Vec4 { x: moved.x, y: moved.y, z: moved.z, w: T::zero_s() };
    let turned = direction.to_rotated_s(rotq);
    let restored = Vec4 { x: turned.x, y: turned.y, z: turned.z, w: T::one_s() };
    let clip = persp.mul_vec_s(restored);
    let ndc3 = clip.projected_s().into_vec3_s();
    let ndc2 = ndc3.projected_s().into_vec2_s();
    to_real_s(ndc2, size)
}

/// Every screen point of every shape, as the pipeline computes them.
pub open spec fn projected_pool<T: Arith + Sqrt + Two + ScreenCast>(
    shapes: Seq<Shape<T>>,
    disp: Matrix4<T>,
    rotq: Quaternion<T>,
    persp: Matrix4<T>,
    size: BufferSize,
) -> Seq<Seq<Vec2<isize>>> {
    Seq::new(
        shapes.len(),
        |i: int|
            Seq::new(
                shapes[i].spec_vertexes().len(),
                |j: int| project_vertex_s(shapes[i].spec_vertexes()[j], disp, rotq, persp, size),
            ),
    )
}

/// The pixels of one frame: the union, over every shape and every edge, of
/// the line between the edge's two projected endpoints.
pub open spec fn frame_set<T: Arith>(
    pool: Seq<Seq<Vec2<isize>>>,
    shapes: Seq<Shape<T>>,
) -> Set<(int, int)> {
    Set::new(
        |p: (int, int)|
            exists|i: int, j: int|
                0 <= i < shapes.len() && 0 <= j < shapes[i].spec_edges().len() && line_pixels(
                    pool[i][shapes[i].spec_edges()[j].0 as int],
                    pool[i][shapes[i].spec_edges()[j].1 as int],
                ).contains(p),
    )
}

pub struct Engine<T> {
    scene: Scene<T>,
    color: Color,
    quater: Quaternion<T>,
    render_cache: RenderCache<T>,
    need_to_redraw: bool,
    move_step: T,
    look_up: Quaternion<T>,
    look_down: Quaternion<T>,
    look_left: Quaternion<T>,
    look_right: Quaternion<T>,
}

impl<T: Arith + Sqrt + SinCos + Two + NegOne + ScreenCast> Engine<T> {
    pub closed spec fn spec_scene(self) -> Scene<T> {
        self.scene
    }

    pub closed spec fn spec_color(self) -> Color {
        self.color
    }

    pub closed spec fn spec_quater(self) -> Quaternion<T> {
        self.quater
    }

    pub closed spec fn spec_cache(self) -> RenderCache<T> {
        self.render_cache
    }

    pub closed spec fn spec_need_to_redraw(self) -> bool {
        self.need_to_redraw
    }

    pub closed spec fn spec_move_step(self) -> T {
        self.move_step
    }

    pub closed spec fn spec_look_up(self) -> Quaternion<T> {
        self.look_up
    }

    pub closed spec fn spec_look_down(self) -> Quaternion<T> {
        self.look_down
    }

    pub closed spec fn spec_look_left(self) -> Quaternion<T> {
        self.look_left
    }

    pub closed spec fn spec_look_right(self) -> Quaternion<T> {
        self.look_right
    }

    /// A fit engine: every edge valid, and one empty cache slot per shape.
    pub open spec fn wf(self) -> bool {
        &&& self.spec_scene().wf()
        &&& self.spec_cache().spec_pool().len() == self.spec_scene().spec_shapes().len()
        &&& forall|i: int|
            0 <= i < self.spec_cache().spec_pool().len() ==> (
            #[trigger] self.spec_cache().spec_pool()[i]).len() == 0
    }

    /// Build an engine.  The per-tick rotation is the normalized product of
    /// the given axis-angle requests; the four look rotations are one turn
    /// step about the two look axes.
    pub fn new(
        scene: Scene<T>,
        color: Color,
        angles: &[AngleUnit<T>],
        size: BufferSize,
        projection: Projection<T>,
        move_step: T,
        turn_step: T,
    ) -> (r: Self)
        requires
            scene.wf(),
        ensures
            r.wf(),
            r.spec_scene() == scene,
            r.spec_color() == color,
            r.spec_quater() == AngleUnit::<T>::unified_quater_s(angles@).normalized_s(),
            r.spec_need_to_redraw() == true,
            r.spec_move_step() == move_step,
            r.spec_look_up() == (AngleUnit(Axis::X, turn_step.neg_s())).to_quater_s(),
            r.spec_look_down() == (AngleUnit(Axis::X, turn_step)).to_quater_s(),
            r.spec_look_left() == (AngleUnit(Axis::Y, turn_step)).to_quater_s(),
            r.spec_look_right() == (AngleUnit(Axis::Y, turn_step.neg_s())).to_quater_s(),
            r.spec_cache().spec_persp_matrix() == perspective_of::<T>(projection, size),
            r.spec_cache().spec_persp_size() == size,
    {
        let quater = AngleUnit::unification_to_quater(angles).to_normalized();
        let render_cache = RenderCache::init(scene.shapes(), size, &scene.camera, projection);
        let look_up = AngleUnit(Axis::X, turn_step.neg()).to_quater();
        let look_down = AngleUnit(Axis::X, turn_step).to_quater();
        let look_left = AngleUnit(Axis::Y, turn_step).to_quater();
        let look_right = AngleUnit(Axis::Y, turn_step.neg()).to_quater();
        Engine {
            scene,
            color,
            quater,
            render_cache,
            need_to_redraw: true,
            move_step,
            look_up,
            look_down,
            look_left,
            look_right,
        }
    }

    /// One simulation tick: every shape turns by the per-tick rotation about
    /// its own center, and a repaint becomes due.
    pub fn event_loop(&mut self)
        requires
            old(self).wf(),
        ensures
            final(self).wf(),
            final(self).spec_need_to_redraw() == true,
            final(self).spec_scene().spec_camera() == old(self).spec_scene().spec_camera(),
            final(self).spec_scene().spec_shapes().len() == old(self).spec_scene().spec_shapes().len(),
            forall|i: int, j: int|
                0 <= i < old(self).spec_scene().spec_shapes().len() && 0 <= j < old(self).spec_scene().spec_shapes()[i].spec_vertexes().len() ==> (#[trigger] final(self).spec_scene().spec_shapes()[i].spec_vertexes()[j]) == old(self).spec_scene().spec_shapes()[i].vertex_rotated_s(
                    old(self).spec_scene().spec_shapes()[i].spec_vertexes()[j],
                    old(self).spec_quater(),
                ),
    {
        self.scene.raw_rotate_shapes(self.quater);
        self.need_to_redraw = true;
    }

    pub fn need_to_redraw(&self) -> (r: bool)
        ensures
            r == self.spec_need_to_redraw(),
    {
        self.need_to_redraw
    }

    pub fn redrawed(&mut self)
        requires
            old(self).wf(),
        ensures
            final(self).wf(),
            final(self).spec_need_to_redraw() == false,
            final(self).spec_scene() == old(self).spec_scene(),
    {
        self.need_to_redraw = false;
    }

    /// React to one key.  The movement keys translate the camera along its
    /// own local axes: the step vector is rotated by the camera's current
    /// orientation before it is added, so that motion is camera-relative.
    /// The arrow keys turn the camera by the fixed look rotations, and the
    /// composed orientation is renormalized after every such turn.
    pub fn handle_input(&mut self, key: Key)
        requires
            old(self).wf(),
        ensures
            final(self).wf(),
            final(self).spec_need_to_redraw() == true,
            final(self).spec_scene().spec_shapes() == old(self).spec_scene().spec_shapes(),
            key == Key::W ==> final(self).spec_scene().spec_camera().pos == old(self).spec_scene().spec_camera().pos.add_s(
                rotated_s(
                    Vec3 { x: T::zero_s(), y: T::zero_s(), z: old(self).spec_move_step() },
                    old(self).spec_scene().spec_camera().spec_quaternion(),
                ),
            ),
            key == Key::S ==> final(self).spec_scene().spec_camera().pos == old(self).spec_scene().spec_camera().pos.sub_s(
                rotated_s(
                    Vec3 { x: T::zero_s(), y: T::zero_s(), z: old(self).spec_move_step() },
                    old(self).spec_scene().spec_camera().spec_quaternion(),
                ),
            ),
            key == Key::A ==> final(self).spec_scene().spec_camera().pos == old(self).spec_scene().spec_camera().pos.add_s(
                rotated_s(
                    Vec3 { x: old(self).spec_move_step(), y: T::zero_s(), z: T::zero_s() },
                    old(self).spec_scene().spec_camera().spec_quaternion(),
                ),
            ),
            key == Key::D ==> final(self).spec_scene().spec_camera().pos == old(self).spec_scene().spec_camera().pos.sub_s(
                rotated_s(
                    Vec3 { x: old(self).spec_move_step(), y: T::zero_s(), z: T::zero_s() },
                    old(self).spec_scene().spec_camera().spec_quaternion(),
                ),
            ),
            key == Key::Space ==> final(self).spec_scene().spec_camera().pos == old(self).spec_scene().spec_camera().pos.add_s(
                rotated_s(
                    Vec3 { x: T::zero_s(), y: old(self).spec_move_step(), z: T::zero_s() },
                    old(self).spec_scene().spec_camera().spec_quaternion(),
                ),
            ),
            key == Key::LeftShift ==> final(self).spec_scene().spec_camera().pos == old(self).spec_scene().spec_camera().pos.sub_s(
                rotated_s(
                    Vec3 { x: T::zero_s(), y: old(self).spec_move_step(), z: T::zero_s() },
                    old(self).spec_scene().spec_camera().spec_quaternion(),
                ),
            ),
            (key == Key::W || key == Key::S || key == Key::A || key == Key::D || key == Key::Space
                || key == Key::LeftShift) ==> final(self).spec_scene().spec_camera().spec_quaternion() == old(self).spec_scene().spec_camera().spec_quaternion(),
            key == Key::Up ==> final(self).spec_scene().spec_camera().spec_quaternion() == qmul_s(
                old(self).spec_scene().spec_camera().spec_quaternion(),
                old(self).spec_look_up(),
            ).normalized_s(),
            key == Key::Down ==> final(self).spec_scene().spec_camera().spec_quaternion()
                == qmul_s(
                old(self).spec_scene().spec_camera().spec_quaternion(),
                old(self).spec_look_down(),
            ).normalized_s(),
            key == Key::Left ==> final(self).spec_scene().spec_camera().spec_quaternion()
                == qmul_s(
                old(self).spec_scene().spec_camera().spec_quaternion(),
                old(self).spec_look_left(),
            ).normalized_s(),
            key == Key::Right ==> final(self).spec_scene().spec_camera().spec_quaternion()
                == qmul_s(
                old(self).spec_scene().spec_camera().spec_quaternion(),
                old(self).spec_look_right(),
            ).normalized_s(),
            (key == Key::Up || key == Key::Down || key == Key::Left || key == Key::Right) ==> final(self).spec_scene().spec_camera().pos == old(self).spec_scene().spec_camera().pos,
            key == Key::Other ==> final(self).spec_scene().spec_camera() == old(self).spec_scene().spec_camera(),
    {
        self.need_to_redraw = true;
        match key {
            Key::W => {
                let step = Vec3 { x: T::zero(), y: T::zero(), z: self.move_step };
                let delta = step.to_raw_rotated(*self.scene.camera.quater());
                self.scene.camera.pos = self.scene.camera.pos.add(delta);
            },
            Key::S => {
                let step = Vec3 { x: T::zero(), y: T::zero(), z: self.move_step };
                let delta = step.to_raw_rotated(*self.scene.camera.quater());
                self.scene.camera.pos = self.scene.camera.pos.sub(delta);
            },
            Key::A => {
                let step = Vec3 { x: self.move_step, y: T::zero(), z: T::zero() };
                let delta = step.to_raw_rotated(*self.scene.camera.quater());
                self.scene.camera.pos = self.scene.camera.pos.add(delta);
            },
            Key::D => {
                let step = Vec3 { x: self.move_step, y: T::zero(), z: T::zero() };
                let delta = step.to_raw_rotated(*self.scene.camera.quater());
                self.scene.camera.pos = self.scene.camera.pos.sub(delta);
            },
            Key::Space => {
                let step = Vec3 { x: T::zero(), y: self.move_step, z: T::zero() };
                let delta = step.to_raw_rotated(*self.scene.camera.quater());
                self.scene.camera.pos = self.scene.camera.pos.add(delta);
            },
            Key::LeftShift => {
                let step = Vec3 { x: T::zero(), y: self.move_step, z: T::zero() };
                let delta = step.to_raw_rotated(*self.scene.camera.quater());
                self.scene.camera.pos = self.scene.camera.pos.sub(delta);
            },
            Key::Up => {
                self.scene.camera = turn_camera(&self.scene.camera, self.look_up);
            },
            Key::Down => {
                self.scene.camera = turn_camera(&self.scene.camera, self.look_down);
            },
            Key::Left => {
                self.scene.camera = turn_camera(&self.scene.camera, self.look_left);
            },
            Key::Right => {
                self.scene.camera = turn_camera(&self.scene.camera, self.look_right);
            },
            Key::Other => {},
        }
    }

    /// The screen pixel of a point in normalized device coordinates.
    pub fn to_real(&self, vec: Vec2<T>, size: BufferSize) -> (r: Vec2<isize>)
        ensures
            r == to_real_s(vec, size),
    {
        to_real_point(vec, size)
    }
}


impl<T: Arith + Sqrt + SinCos + Two + NegOne + ScreenCast> Engine<T> {
    pub fn scene(&self) -> (r: &Scene<T>)
        ensures
            *r == self.spec_scene(),
    {
        &self.scene
    }

    pub fn render_cache(&self) -> (r: &RenderCache<T>)
        ensures
            *r == self.spec_cache(),
    {
        &self.render_cache
    }

    /// Paint one frame: refresh the memoized matrices, project every vertex
    /// of every shape to a screen point, clear the buffer to black, draw
    /// every edge as a line between its projected endpoints, and empty the
    /// cache for the next frame.
    ///
    /// Afterwards a pixel holds the line color exactly when some edge's line
    /// covers it, and black otherwise.
    pub fn produce_frame(&mut self, buffer: &mut Buffer)
        requires
            old(self).wf(),
            old(buffer).wf(),
        ensures
            final(self).wf(),
            final(self).spec_scene() == old(self).spec_scene(),
            final(buffer).wf(),
            final(buffer).size == old(buffer).size,
            final(buffer).raw_buffer.0@.len() == old(buffer).raw_buffer.0@.len(),
            forall|x: int, y: int|
                0 <= x < old(buffer).size.width && 0 <= y < old(buffer).size.height
                    ==> #[trigger] final(buffer).pixel(x, y) == if frame_set(
                    projected_pool(
                        old(self).spec_scene().spec_shapes(),
                        old(self).spec_scene().spec_camera().pos.neg_s().to_displacement_matrix_s(),
                        old(self).spec_scene().spec_camera().spec_quaternion().conjugated_s(),
                        reloaded_persp_matrix(old(self).spec_cache(), old(buffer).size),
                        old(buffer).size,
                    ),
                    old(self).spec_scene().spec_shapes(),
                ).contains((x, y)) {
                    old(self).spec_color().0
                } else {
                    0u32
                },
    {
        let ghost shapes0 = self.scene.spec_shapes();
        self.render_cache.reload(buffer.size, &self.scene.camera);
        self.render_cache.reload_camera_disp_matrix(&self.scene.camera);
        self.render_cache.reload_camera_quater(&self.scene.camera);
        let disp = self.render_cache.camera_disp_matrix();
        let rotq = self.render_cache.camera_quater();
        let persp = self.render_cache.persp_matrix();
        let size = buffer.size;
        let ghost pool_spec = projected_pool(shapes0, disp, rotq, persp, size);

        // Project every vertex into the cache.
        let shape_count = self.scene.shapes().len();
        let mut i: usize = 0;
        while i < shape_count
            invariant
                self.wf_except_pool(),
                shape_count == self.scene.spec_shapes().len(),
                i <= shape_count,
                self.scene == old(self).spec_scene(),
                self.color == old(self).spec_color(),
                self.scene.spec_shapes() == shapes0,
                self.render_cache.spec_pool().len() == shape_count,
                self.render_cache.spec_camera_disp_matrix() == disp,
                self.render_cache.spec_camera_quater() == rotq,
                self.render_cache.spec_persp_matrix() == persp,
                pool_spec == projected_pool(shapes0, disp, rotq, persp, size),
                forall|k: int|
                    0 <= k < i ==> (#[trigger] self.render_cache.spec_pool()[k]) == pool_spec[k],
                forall|k: int|
                    i <= k < shape_count ==> (#[trigger] self.render_cache.spec_pool()[k]).len()
                        == 0,
            decreases shape_count - i,
        {
            let vertex_count = self.scene.shapes()[i].vertexes().len();
            let mut j: usize = 0;
            while j < vertex_count
                invariant
                    self.wf_except_pool(),
                    shape_count == self.scene.spec_shapes().len(),
                    0 <= i < shape_count,
                    vertex_count == self.scene.spec_shapes()[i as int].spec_vertexes().len(),
                    j <= vertex_count,
                    self.scene == old(self).spec_scene(),
                    self.color == old(self).spec_color(),
                    self.scene.spec_shapes() == shapes0,
                    self.render_cache.spec_pool().len() == shape_count,
                    self.render_cache.spec_camera_disp_matrix() == disp,
                    self.render_cache.spec_camera_quater() == rotq,
                    self.render_cache.spec_persp_matrix() == persp,
                    pool_spec == projected_pool(shapes0, disp, rotq, persp, size),
                    forall|k: int|
                        0 <= k < i ==> (#[trigger] self.render_cache.spec_pool()[k])
                            == pool_spec[k],
                    self.render_cache.spec_pool()[i as int] == pool_spec[i as int].take(j as int),
                    forall|k: int|
                        i < k < shape_count ==> (#[trigger] self.render_cache.spec_pool()[k]).len()
                            == 0,
                decreases vertex_count - j,
            {
                let v = self.scene.shapes()[i].vertexes()[j];
                let p2 = project_vertex(v, disp, rotq, persp, size);
                self.render_cache.push(i, p2);
                proof {
                    assert(pool_spec[i as int].take(j as int).push(p2) =~= pool_spec[
                        i as int].take(j + 1 as int));
                }
                j = j + 1;
            }
            proof {
                assert(pool_spec[i as int].take(vertex_count as int) =~= pool_spec[i as int]);
            }
            i = i + 1;
        }
        proof {
            assert forall|k: int| 0 <= k < shape_count implies (
                #[trigger] self.render_cache.spec_pool()[k]) == pool_spec[k] by {}
            assert(self.render_cache.spec_pool() =~= pool_spec);
        }

        // Clear the buffer and draw every edge.
        buffer.fill(Color(0));
        let ghost black_buf = *buffer;
        proof {
            assert forall|x: int, y: int|
                0 <= x < buffer.size.width && 0 <= y < buffer.size.height implies #[trigger] buffer.pixel(x, y) == 0u32 by {
                lemma_pixel_index(x, y, buffer.size.width as int, buffer.size.height as int);
            }
        }
        let ghost full = frame_set(pool_spec, shapes0);
        let ghost w = buffer.size.width as int;
        let ghost h = buffer.size.height as int;
        let mut si: usize = 0;
        while si < shape_count
            invariant
                self.wf_except_pool(),
                buffer.wf(),
                buffer.size == old(buffer).size,
                buffer.raw_buffer.0@.len() == black_buf.raw_buffer.0@.len(),
                black_buf.size == buffer.size,
                w == buffer.size.width as int,
                h == buffer.size.height as int,
                shape_count == self.scene.spec_shapes().len(),
                si <= shape_count,
                self.scene == old(self).spec_scene(),
                self.color == old(self).spec_color(),
                self.scene.spec_shapes() == shapes0,
                self.render_cache.spec_pool() == pool_spec,
                pool_spec == projected_pool(shapes0, disp, rotq, persp, size),
                full == frame_set(pool_spec, shapes0),
                self.scene.wf(),
                forall|i2: int| 0 <= i2 < black_buf.raw_buffer.0@.len() ==> black_buf.raw_buffer.0@[i2] == 0u32,
                forall|x: int, y: int|
                    0 <= x < w && 0 <= y < h ==> #[trigger] buffer.pixel(x, y) == if exists|a: int, b: int|
                        0 <= a < shapes0.len() && 0 <= b < shapes0[a].spec_edges().len() && (a < si)
                            && line_pixels(
                            pool_spec[a][shapes0[a].spec_edges()[b].0 as int],
                            pool_spec[a][shapes0[a].spec_edges()[b].1 as int],
                        ).contains((x, y)) {
                        self.spec_color().0
                    } else {
                        0u32
                    },
            decreases shape_count - si,
        {
            let edge_count = self.scene.shapes()[si].edges().len();
            let mut sj: usize = 0;
            while sj < edge_count
                invariant
                    self.wf_except_pool(),
                    buffer.wf(),
                    buffer.size == old(buffer).size,
                    buffer.raw_buffer.0@.len() == black_buf.raw_buffer.0@.len(),
                    black_buf.size == buffer.size,
                    w == buffer.size.width as int,
                    h == buffer.size.height as int,
                    shape_count == self.scene.spec_shapes().len(),
                    0 <= si < shape_count,
                    edge_count == self.scene.spec_shapes()[si as int].spec_edges().len(),
                    sj <= edge_count,
                    self.scene == old(self).spec_scene(),
                    self.color == old(self).spec_color(),
                    self.scene.spec_shapes() == shapes0,
                    self.render_cache.spec_pool() == pool_spec,
                    pool_spec == projected_pool(shapes0, disp, rotq, persp, size),
                    full == frame_set(pool_spec, shapes0),
                    self.scene.wf(),
                    forall|i2: int| 0 <= i2 < black_buf.raw_buffer.0@.len() ==> black_buf.raw_buffer.0@[i2] == 0u32,
                    forall|x: int, y: int|
                        0 <= x < w && 0 <= y < h ==> #[trigger] buffer.pixel(x, y) == if exists|a: int, b: int|
                            0 <= a < shapes0.len() && 0 <= b < shapes0[a].spec_edges().len() && (a
                                < si || (a == si && b < sj)) && line_pixels(
                                pool_spec[a][shapes0[a].spec_edges()[b].0 as int],
                                pool_spec[a][shapes0[a].spec_edges()[b].1 as int],
                            ).contains((x, y)) {
                            self.spec_color().0
                        } else {
                            0u32
                        },
                decreases edge_count - sj,
            {
                let edge = self.scene.shapes()[si].edges()[sj];
                let start = self.render_cache.get(si, edge.0);
                let end = self.render_cache.get(si, edge.1);
                proof {
                    lemma_projected_in_range(shapes0, disp, rotq, persp, size, si as int, edge.0 as int);
                    lemma_projected_in_range(shapes0, disp, rotq, persp, size, si as int, edge.1 as int);
                }
                let ghost pre_buf = *buffer;
                buffer.draw_line(start, end, self.color);
                proof {
                    let line = line_pixels(start, end);
                    assert forall|x: int, y: int| 0 <= x < w && 0 <= y < h implies #[trigger] buffer.pixel(x, y) == if exists|a: int, b: int|
                        0 <= a < shapes0.len() && 0 <= b < shapes0[a].spec_edges().len() && (a < si
                            || (a == si && b < sj + 1)) && line_pixels(
                            pool_spec[a][shapes0[a].spec_edges()[b].0 as int],
                            pool_spec[a][shapes0[a].spec_edges()[b].1 as int],
                        ).contains((x, y)) {
                        self.spec_color().0
                    } else {
                        0u32
                    } by {
                        let a0 = si as int;
                        let b0 = sj as int;
                        if line.contains((x, y)) {
                            assert(line_pixels(
                                pool_spec[a0][shapes0[a0].spec_edges()[b0].0 as int],
                                pool_spec[a0][shapes0[a0].spec_edges()[b0].1 as int],
                            ).contains((x, y)));
                        } else {
                            assert(buffer.pixel(x, y) == pre_buf.pixel(x, y));
                        }
                    }
                }
                sj = sj + 1;
            }
            si = si + 1;
        }
        proof {
            assert forall|x: int, y: int| 0 <= x < w && 0 <= y < h implies #[trigger] buffer.pixel(
                x,
                y,
            ) == if full.contains((x, y)) {
                self.spec_color().0
            } else {
                0u32
            } by {}
        }
        self.render_cache.clear();
    }

    /// A fit engine whose cache slots may be full (mid-frame).
    pub open spec fn wf_except_pool(self) -> bool {
        &&& self.spec_scene().wf()
        &&& self.spec_cache().spec_pool().len() == self.spec_scene().spec_shapes().len()
    }
}

/// What the cache's memoized perspective matrix is after a refresh for a
/// viewport size.
pub open spec fn reloaded_persp_matrix<T: Arith + Sqrt + SinCos + Two + NegOne + ScreenCast>(
    cache: RenderCache<T>,
    size: BufferSize,
) -> Matrix4<T> {
    if size == cache.spec_persp_size() {
        cache.spec_persp_matrix()
    } else {
        perspective_of::<T>(cache.spec_projection(), size)
    }
}

/// Every projected screen point lies in the rasterizer's coordinate range.
proof fn lemma_projected_in_range<T: Arith + Sqrt + SinCos + Two + NegOne + ScreenCast>(
    shapes: Seq<Shape<T>>,
    disp: Matrix4<T>,
    rotq: Quaternion<T>,
    persp: Matrix4<T>,
    size: BufferSize,
    i: int,
    j: int,
)
    requires
        0 <= i < shapes.len(),
        0 <= j < shapes[i].spec_vertexes().len(),
    ensures
        -COORD_LIMIT <= projected_pool(shapes, disp, rotq, persp, size)[i][j].x <= COORD_LIMIT,
        -COORD_LIMIT <= projected_pool(shapes, disp, rotq, persp, size)[i][j].y <= COORD_LIMIT,
{
}

/// One vertex pushed through the whole pipeline.
fn project_vertex<T: Arith + Sqrt + SinCos + Two + NegOne + ScreenCast>(
    v: Vec3<T>,
    disp: Matrix4<T>,
    rotq: Quaternion<T>,
    persp: Matrix4<T>,
    size: BufferSize,
) -> (r: Vec2<isize>)
    ensures
        r == project_vertex_s(v, disp, rotq, persp, size),
{
    let lifted = v.into_lifted();
    let moved = disp.mul_vec(lifted);
    let direction = moved.set_w(T::zero());
    let turned = direction.to_rotated(rotq);
    let restored = turned.set_w(T::one());
    let clip = persp.mul_vec(restored);
    let ndc3 = clip.to_projected().into_vec3();
    let ndc2 = ndc3.to_projected().into_vec2();
    to_real_point(ndc2, size)
}

/// The screen pixel of a point in normalized device coordinates.
fn to_real_point<T: Arith + Two + ScreenCast>(vec: Vec2<T>, size: BufferSize) -> (r: Vec2<isize>)
    ensures
        r == to_real_s(vec, size),
{
    let x = div_or_zero(vec.x.add(T::one()), T::two()).mul(
        T::from_usize(size.width),
    ).into_isize();
    let y = T::one().sub(div_or_zero(vec.y.add(T::one()), T::two())).mul(
        T::from_usize(size.height),
    ).into_isize();
    Vec2 { x: clamp(x), y: clamp(y) }
}

/// The camera turned by one precomputed look rotation and renormalized.
fn turn_camera<T: Arith + Sqrt>(camera: &Camera<T>, q: Quaternion<T>) -> (r: Camera<T>)
    ensures
        r.pos == camera.pos,
        r.spec_quaternion() == qmul_s(camera.spec_quaternion(), q).normalized_s(),
{
    let turned = camera.raw_rotate(q);
    Camera::new(turned.pos, turned.quater().to_normalized())
}

fn clamp(i: isize) -> (r: isize)
    ensures
        r == clamp_coord(i),
{
    if i > COORD_LIMIT {
        COORD_LIMIT
    } else if i < -COORD_LIMIT {
        -COORD_LIMIT
    } else {
        i
    }
}

} // verus!
