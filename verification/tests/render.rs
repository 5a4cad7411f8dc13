// The rasterizer, the colors, the decoded images, the render cache, and the
// engine's input handling.

use simple_render::color::Color;
use simple_render::render::buffer::{Buffer, BufferSize};
use simple_render::render::image::{Image, ImageError};
use simple_render::vector::vec2::Vec2;
use simple_render::vector::vec3::Vec3;
use simple_render::vector::quaternion::Quaternion;
use simple_render::vector::Axis;
use simple_render::shape::AngleUnit;
use simple_render::shape::cube::Cube;
use simple_render::camera::Camera;
use simple_render::scene::Scene;
use simple_render::engine::{Engine, Key};
use simple_render::engine::render_cache::{Projection, RenderCache};
use simple_render::num_traits::{Zero, One, Two, NegOne, Arith, Sqrt, SinCos, ScreenCast};

#[derive(Debug, Clone, Copy, PartialEq, PartialOrd)]
pub struct Fp(pub f64);

impl Zero for Fp {
    fn zero_s() -> Fp {
        Fp(0.0)
    }

    fn zero() -> Fp {
        Fp(0.0)
    }
}

impl One for Fp {
    fn one_s() -> Fp {
        Fp(1.0)
    }

    fn one() -> Fp {
        Fp(1.0)
    }
}

impl Two for Fp {
    fn two_s() -> Fp {
        Fp(2.0)
    }

    fn two() -> Fp {
        Fp(2.0)
    }
}

impl NegOne for Fp {
    fn neg_one_s() -> Fp {
        Fp(-1.0)
    }

    fn neg_one() -> Fp {
        Fp(-1.0)
    }
}

impl Arith for Fp {
    fn add_s(self, o: Fp) -> Fp {
        Fp(self.0 + o.0)
    }

    fn sub_s(self, o: Fp) -> Fp {
        Fp(self.0 - o.0)
    }

    fn mul_s(self, o: Fp) -> Fp {
        Fp(self.0 * o.0)
    }

    fn neg_s(self) -> Fp {
        Fp(-self.0)
    }

    fn div_s(self, o: Fp) -> Fp {
        Fp(self.0 / o.0)
    }

    fn add(self, o: Fp) -> Fp {
        Fp(self.0 + o.0)
    }

    fn sub(self, o: Fp) -> Fp {
        Fp(self.0 - o.0)
    }

    fn mul(self, o: Fp) -> Fp {
        Fp(self.0 * o.0)
    }

    fn neg(self) -> Fp {
        Fp(-self.0)
    }

    fn div(self, o: Fp) -> Fp {
        Fp(self.0 / o.0)
    }

    fn equals(self, o: Fp) -> bool {
        self.0 == o.0
    }
}

impl Sqrt for Fp {
    fn sqrt_s(self) -> Fp {
        Fp(self.0.sqrt())
    }

    fn sqrt(self) -> Fp {
        Fp(self.0.sqrt())
    }
}

impl SinCos for Fp {
    fn sin_s(self) -> Fp {
        Fp(self.0.sin())
    }

    fn cos_s(self) -> Fp {
        Fp(self.0.cos())
    }

    fn to_radians_s(self) -> Fp {
        Fp(self.0.to_radians())
    }

    fn sin(self) -> Fp {
        Fp(self.0.sin())
    }

    fn cos(self) -> Fp {
        Fp(self.0.cos())
    }

    fn sin_cos(self) -> (Fp, Fp) {
        (Fp(self.0.sin()), Fp(self.0.cos()))
    }

    fn to_radians(self) -> Fp {
        Fp(self.0.to_radians())
    }
}

impl ScreenCast for Fp {
    fn from_usize_s(u: usize) -> Fp {
        Fp(u as f64)
    }

    fn into_isize_s(self) -> isize {
        self.0 as isize
    }

    fn from_usize(u: usize) -> Fp {
        Fp(u as f64)
    }

    fn into_isize(self) -> isize {
        self.0 as isize
    }
}

fn p(x: isize, y: isize) -> Vec2<isize> {
    Vec2::new(x, y)
}

fn painted(buffer: &Buffer) -> Vec<(isize, isize)> {
    let mut out = Vec::new();
    for y in 0..buffer.size.height as isize {
        for x in 0..buffer.size.width as isize {
            if buffer.get_point(p(x, y)) != 0 {
                out.push((x, y));
            }
        }
    }
    out
}

#[test]
fn line_direction_invariance() {
    // The same pixels whichever endpoint comes first, and both endpoints
    // painted (a known asymmetric case for the plain walk).
    let size = BufferSize::new(8, 8);
    let a = p(0, 0);
    let b = p(2, 1);
    let mut fwd = Buffer::init(size);
    fwd.draw_line(a, b, Color(1));
    let mut rev = Buffer::init(size);
    rev.draw_line(b, a, Color(1));
    let fwd_set = painted(&fwd);
    let rev_set = painted(&rev);
    assert_eq!(fwd_set, rev_set);
    assert!(fwd_set.contains(&(0, 0)));
    assert!(fwd_set.contains(&(2, 1)));
}

#[test]
fn line_horizontal_exact() {
    // A horizontal line paints exactly the eleven pixels between its ends.
    let size = BufferSize::new(12, 3);
    let mut buffer = Buffer::init(size);
    buffer.draw_line(p(0, 0), p(10, 0), Color(7));
    let got = painted(&buffer);
    let expected: Vec<(isize, isize)> = (0..=10).map(|x| (x, 0)).collect();
    assert_eq!(got, expected);
}

#[test]
fn line_diagonal_endpoints() {
    let size = BufferSize::new(16, 16);
    let mut buffer = Buffer::init(size);
    buffer.draw_line(p(3, 2), p(11, 9), Color(5));
    let got = painted(&buffer);
    assert!(got.contains(&(3, 2)));
    assert!(got.contains(&(11, 9)));
}

#[test]
fn accuracy_line_stops_at_border() {
    // The clipping walk starts from the inside endpoint and stops at the
    // first sample outside; with both endpoints outside, nothing is painted.
    let size = BufferSize::new(4, 4);
    let mut buffer = Buffer::init(size);
    buffer.accuracy_draw_line(p(-5, -5), p(-1, -1), Color(9));
    assert_eq!(painted(&buffer).len(), 0);
    let mut buffer = Buffer::init(size);
    buffer.accuracy_draw_line(p(1, 1), p(9, 1), Color(9));
    let got = painted(&buffer);
    assert_eq!(got, vec![(1, 1), (2, 1), (3, 1)]);
}

#[test]
fn triangle_fill_exact() {
    // The filled triangle (0,0), (10,0), (0,10): exactly the pixels with
    // nonnegative coordinates summing to at most ten.
    let size = BufferSize::new(12, 12);
    let mut buffer = Buffer::init(size);
    let tri = Vec3::new(p(0, 0), p(10, 0), p(0, 10));
    buffer.fill_triangle(tri, Color(3));
    for y in 0..12isize {
        for x in 0..12isize {
            let inside = x + y <= 10;
            let value = buffer.get_point(p(x, y));
            assert_eq!(value != 0, inside, "pixel ({}, {})", x, y);
        }
    }
}

#[test]
fn rectangle_fill_clips() {
    let size = BufferSize::new(4, 4);
    let mut buffer = Buffer::init(size);
    let rect = Vec2::new(p(2, 2), p(9, 9));
    buffer.fill_rectangle(rect, Color(2));
    let got = painted(&buffer);
    assert_eq!(got, vec![(2, 2), (3, 2), (2, 3), (3, 3)]);
}

#[test]
fn rectangle_border() {
    let size = BufferSize::new(6, 6);
    let mut buffer = Buffer::init(size);
    buffer.draw_rectangle(Vec2::new(p(1, 1), p(4, 3)), Color(2));
    for y in 0..6isize {
        for x in 0..6isize {
            let on = (1 <= x && x <= 4 && (y == 1 || y == 3)) || (1 <= y && y <= 3 && (x == 1
                || x == 4));
            assert_eq!(buffer.get_point(p(x, y)) != 0, on, "pixel ({}, {})", x, y);
        }
    }
}

#[test]
fn point_bounds_checked() {
    let size = BufferSize::new(3, 3);
    let mut buffer = Buffer::init(size);
    buffer.draw_point(p(-1, 0), Color(5));
    buffer.draw_point(p(0, 3), Color(5));
    assert_eq!(painted(&buffer).len(), 0);
    buffer.draw_point(p(2, 1), Color(5));
    assert_eq!(painted(&buffer), vec![(2, 1)]);
    assert_eq!(buffer.get_point(p(2, 1)), 5);
}

#[test]
fn buffer_fill_and_clear() {
    let size = BufferSize::new(2, 2);
    let mut buffer = Buffer::init(size);
    buffer.fill(Color(11));
    assert_eq!(painted(&buffer).len(), 4);
    buffer.clear();
    assert_eq!(painted(&buffer).len(), 0);
}

#[test]
fn color_round_trip() {
    let c = Color::from_rgb(12, 200, 255);
    assert_eq!(c.to_rgb(), (12, 200, 255));
    assert_eq!(Color::new(c.0), c);
}

#[test]
fn color_saturating_ops() {
    let a = Color::from_rgb(200, 10, 0);
    let b = Color::from_rgb(100, 5, 1);
    assert_eq!(a.add(b).to_rgb(), (255, 15, 1));
    assert_eq!(a.sub(b).to_rgb(), (100, 5, 0));
}

#[test]
fn image_blit() {
    let mut img_buf = Buffer::init(BufferSize::new(2, 2));
    img_buf.fill(Color(9));
    let image = Image::new(img_buf);
    let mut buffer = Buffer::init(BufferSize::new(4, 4));
    buffer.draw_image(&image, p(3, 3));
    // Only the destination pixels inside the buffer are painted.
    assert_eq!(painted(&buffer), vec![(3, 3)]);
}

#[test]
fn png_round_trip() {
    // Encode a two-pixel RGB image with the png crate, decode it through the
    // library, and expect the packed colors.
    let mut bytes: Vec<u8> = Vec::new();
    {
        let mut encoder = png::Encoder::new(&mut bytes, 2, 1);
        encoder.set_color(png::ColorType::Rgb);
        encoder.set_depth(png::BitDepth::Eight);
        let mut writer = encoder.write_header().unwrap();
        writer.write_image_data(&[1, 2, 3, 250, 251, 252]).unwrap();
    }
    let image = Image::from_png(&bytes).unwrap();
    assert_eq!(image.0.size, BufferSize::new(2, 1));
    assert_eq!(image.0.get_point(p(0, 0)), 0x010203);
    assert_eq!(image.0.get_point(p(1, 0)), 0xfafbfc);
}

#[test]
fn png_rejects_garbage() {
    let r = Image::from_png(&[1, 2, 3, 4]);
    assert!(matches!(r, Err(ImageError::Decode(_))));
}

#[test]
fn png_rejects_non_rgb() {
    let mut bytes: Vec<u8> = Vec::new();
    {
        let mut encoder = png::Encoder::new(&mut bytes, 1, 1);
        encoder.set_color(png::ColorType::Rgba);
        encoder.set_depth(png::BitDepth::Eight);
        let mut writer = encoder.write_header().unwrap();
        writer.write_image_data(&[1, 2, 3, 4]).unwrap();
    }
    let r = Image::from_png(&bytes);
    assert!(matches!(r, Err(ImageError::Layout)));
}

fn small_engine() -> Engine<Fp> {
    let cube = Cube::new(Vec3::new(Fp(0.0), Fp(0.0), Fp(10.0)), Fp(2.0));
    let camera = Camera::new(
        Vec3::new(Fp(0.0), Fp(0.0), Fp(0.0)),
        Quaternion::new(Fp(0.0), Fp(0.0), Fp(0.0), Fp(1.0)),
    );
    let scene = Scene::new(vec![cube.create()], camera);
    let projection = Projection { fov: Fp(90.0), near: Fp(0.1), far: Fp(100.0) };
    Engine::new(
        scene,
        Color(0xffffff),
        &[AngleUnit::new(Axis::X, Fp(3.0)), AngleUnit::new(Axis::Z, Fp(3.0))],
        BufferSize::new(64, 48),
        projection,
        Fp(0.1),
        Fp(0.5),
    )
}

#[test]
fn camera_forward_is_local() {
    // Moving "forward" follows the camera's own orientation, not the world
    // axis: turned 180 degrees about y, forward decreases world z.
    let mut engine = small_engine();
    engine.handle_input(Key::W);
    let z_after_identity = engine.scene().camera.pos.z.0;
    assert!((z_after_identity - 0.1).abs() < 1e-9);

    let cube = Cube::new(Vec3::new(Fp(0.0), Fp(0.0), Fp(10.0)), Fp(2.0));
    let camera = Camera::from_angles(
        Vec3::new(Fp(0.0), Fp(0.0), Fp(0.0)),
        &[AngleUnit::new(Axis::Y, Fp(180.0))],
    );
    let scene = Scene::new(vec![cube.create()], camera);
    let projection = Projection { fov: Fp(90.0), near: Fp(0.1), far: Fp(100.0) };
    let mut engine = Engine::new(
        scene,
        Color(0xffffff),
        &[],
        BufferSize::new(64, 48),
        projection,
        Fp(0.1),
        Fp(0.5),
    );
    engine.handle_input(Key::W);
    assert!((engine.scene().camera.pos.z.0 + 0.1).abs() < 1e-9);
}

#[test]
fn viewport_resize_recomputes_once() {
    // The memoized perspective matrix changes exactly once after a size
    // change, and not at all on unchanged frames.
    let camera = Camera::new(
        Vec3::new(Fp(0.0), Fp(0.0), Fp(0.0)),
        Quaternion::new(Fp(0.0), Fp(0.0), Fp(0.0), Fp(1.0)),
    );
    let shapes: Vec<simple_render::shape::Shape<Fp>> = Vec::new();
    let projection = Projection { fov: Fp(90.0), near: Fp(0.1), far: Fp(100.0) };
    let size1 = BufferSize::new(64, 48);
    let mut cache = RenderCache::init(&shapes, size1, &camera, projection);
    let m1 = cache.persp_matrix();
    cache.reload(size1, &camera);
    assert_eq!(cache.persp_matrix(), m1);
    let size2 = BufferSize::new(128, 48);
    cache.reload(size2, &camera);
    let m2 = cache.persp_matrix();
    assert_ne!(m2, m1);
    assert_eq!(cache.persp_matrix_size(), size2);
    cache.reload(size2, &camera);
    assert_eq!(cache.persp_matrix(), m2);
}

#[test]
fn engine_paints_frame() {
    // One produced frame of a cube in front of the camera paints some pixels
    // with the line color, and the cache is emptied for the next frame.
    let mut engine = small_engine();
    let mut buffer = Buffer::init(BufferSize::new(64, 48));
    engine.produce_frame(&mut buffer);
    let lit = painted(&buffer);
    assert!(lit.len() > 0);
    for &(x, y) in &lit {
        assert_eq!(buffer.get_point(p(x, y)), 0xffffff);
    }
}

#[test]
fn engine_tick_marks_redraw() {
    let mut engine = small_engine();
    engine.redrawed();
    assert!(!engine.need_to_redraw());
    engine.event_loop();
    assert!(engine.need_to_redraw());
}
