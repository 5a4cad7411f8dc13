// The numeric tower on the exact 64-bit integer scalar, and on a local
// floating-point scalar for the approximate laws.

use simple_render::num_traits::{Zero, One, Two, NegOne, Arith, Sqrt, SinCos, ScreenCast};
use simple_render::vector::Vector;
use simple_render::vector::vec2::Vec2;
use simple_render::vector::vec3::Vec3;
use simple_render::vector::vec4::Vec4;
use simple_render::vector::quaternion::Quaternion;
use simple_render::vector::Axis;
use simple_render::matrix::Unit;
use simple_render::matrix::matrix4::Matrix4;
use simple_render::shape::{AngleUnit, EdgeUnit, Shape};
use simple_render::shape::cube::Cube;
use simple_render::camera::Camera;
use simple_render::scene::Scene;

/// A floating-point scalar for the tests: the library's numeric tower is
/// generic, and the trait methods carry the behaviour.
#[derive(Debug, Clone, Copy, PartialEq, PartialOrd)]
pub struct Fp(pub f64);

impl Zero for Fp {
    fn zero_s() -> Fp {
        Fp(0.0)
    }

    fn zero() -> Fp {
        Fp(0.0)
    }
}

impl One for Fp {
    fn one_s() -> Fp {
        Fp(1.0)
    }

    fn one() -> Fp {
        Fp(1.0)
    }
}

impl Two for Fp {
    fn two_s() -> Fp {
        Fp(2.0)
    }

    fn two() -> Fp {
        Fp(2.0)
    }
}

impl NegOne for Fp {
    fn neg_one_s() -> Fp {
        Fp(-1.0)
    }

    fn neg_one() -> Fp {
        Fp(-1.0)
    }
}

impl Arith for Fp {
    fn add_s(self, o: Fp) -> Fp {
        Fp(self.0 + o.0)
    }

    fn sub_s(self, o: Fp) -> Fp {
        Fp(self.0 - o.0)
    }

    fn mul_s(self, o: Fp) -> Fp {
        Fp(self.0 * o.0)
    }

    fn neg_s(self) -> Fp {
        Fp(-self.0)
    }

    fn div_s(self, o: Fp) -> Fp {
        Fp(self.0 / o.0)
    }

    fn add(self, o: Fp) -> Fp {
        Fp(self.0 + o.0)
    }

    fn sub(self, o: Fp) -> Fp {
        Fp(self.0 - o.0)
    }

    fn mul(self, o: Fp) -> Fp {
        Fp(self.0 * o.0)
    }

    fn neg(self) -> Fp {
        Fp(-self.0)
    }

    fn div(self, o: Fp) -> Fp {
        Fp(self.0 / o.0)
    }

    fn equals(self, o: Fp) -> bool {
        self.0 == o.0
    }
}

impl Sqrt for Fp {
    fn sqrt_s(self) -> Fp {
        Fp(self.0.sqrt())
    }

    fn sqrt(self) -> Fp {
        Fp(self.0.sqrt())
    }
}

impl SinCos for Fp {
    fn sin_s(self) -> Fp {
        Fp(self.0.sin())
    }

    fn cos_s(self) -> Fp {
        Fp(self.0.cos())
    }

    fn to_radians_s(self) -> Fp {
        Fp(self.0.to_radians())
    }

    fn sin(self) -> Fp {
        Fp(self.0.sin())
    }

    fn cos(self) -> Fp {
        Fp(self.0.cos())
    }

    fn sin_cos(self) -> (Fp, Fp) {
        (Fp(self.0.sin()), Fp(self.0.cos()))
    }

    fn to_radians(self) -> Fp {
        Fp(self.0.to_radians())
    }
}

impl ScreenCast for Fp {
    fn from_usize_s(u: usize) -> Fp {
        Fp(u as f64)
    }

    fn into_isize_s(self) -> isize {
        self.0 as isize
    }

    fn from_usize(u: usize) -> Fp {
        Fp(u as f64)
    }

    fn into_isize(self) -> isize {
        self.0 as isize
    }
}

fn close(a: f64, b: f64) -> bool {
    (a - b).abs() < 1e-9
}

fn v3(x: f64, y: f64, z: f64) -> Vec3<Fp> {
    Vec3::new(Fp(x), Fp(y), Fp(z))
}

#[test]
fn test_quaters_mul() {
    // A quaternion with scalar part 1 and vector part (2, 3, 4).
    let q = Quaternion::new(2i64, 3, 4, 1);
    let unit: Quaternion<i64> = Quaternion::unit();
    assert_eq!(q, q.mul(unit));
    assert_eq!(q, unit.mul(q));
    let q = Quaternion::new(2i64, -3, 1, 1);
    let p = Quaternion::new(-1i64, 2, 3, 2);
    assert_eq!(Quaternion::new(-8i64, -11, 6, 7), q.mul(p));
}

#[test]
fn rotate_round_trip_integer() {
    // 180 degrees about the x axis is an exact integer unit quaternion.
    let q = Quaternion::new(1i64, 0, 0, 0);
    let v = Vec3::new(10i64, -7, 3);
    let once = v.to_raw_rotated(q);
    assert_eq!(once, Vec3::new(10i64, 7, -3));
    let back = once.to_raw_rotated(q.to_conjugated());
    assert_eq!(back, v);
}

#[test]
fn rotate_round_trip_float() {
    // An arbitrary-angle rotation undone by the conjugate, within epsilon.
    let axis = v3(0.0, 0.0, 1.0);
    let q = Quaternion::from_angle(Fp(0.7), axis);
    let v = v3(1.5, -2.0, 0.25);
    let there = v.to_raw_rotated(q);
    let back = there.to_raw_rotated(q.to_conjugated());
    assert!(close(back.x.0, v.x.0));
    assert!(close(back.y.0, v.y.0));
    assert!(close(back.z.0, v.z.0));
}

#[test]
fn normalize_unit_length() {
    let v = v3(3.0, 4.0, 0.0);
    let n = v.to_normalized();
    let len = (n.x.0 * n.x.0 + n.y.0 * n.y.0 + n.z.0 * n.z.0).sqrt();
    assert!(close(len, 1.0));
    assert!(close(n.x.0, 0.6));
    assert!(close(n.y.0, 0.8));
}

#[test]
fn normalize_zero_vector() {
    let v: Vec3<i64> = Vec3::new(0, 0, 0);
    assert_eq!(v.to_normalized(), Vec3::new(0i64, 0, 0));
    let f = v3(0.0, 0.0, 0.0);
    let n = f.to_normalized();
    assert_eq!(n.x.0, 0.0);
    assert_eq!(n.y.0, 0.0);
    assert_eq!(n.z.0, 0.0);
}

#[test]
fn quaternion_normalize_zero() {
    let q: Quaternion<i64> = Quaternion::new(0, 0, 0, 0);
    assert_eq!(q.to_normalized(), Quaternion::new(0i64, 0, 0, 0));
}

#[test]
fn integer_sqrt() {
    assert_eq!(0i64.sqrt(), 0);
    assert_eq!(1i64.sqrt(), 1);
    assert_eq!(2i64.sqrt(), 1);
    assert_eq!(4i64.sqrt(), 2);
    assert_eq!(26i64.sqrt(), 5);
    assert_eq!((-9i64).sqrt(), 0);
    assert_eq!(1_000_000_000_000i64.sqrt(), 1_000_000);
}

#[test]
fn projection_divides_by_last() {
    let v = Vec4::new(8i64, 6, 4, 2);
    assert_eq!(v.to_projected(), Vec4::new(4i64, 3, 2, 1));
    assert_eq!(v.to_affine(), Vec3::new(4i64, 3, 2));
    let z = Vec4::new(8i64, 6, 4, 0);
    assert_eq!(z.to_projected(), Vec4::new(0i64, 0, 0, 0));
    assert_eq!(z.to_affine(), Vec3::new(0i64, 0, 0));
}

#[test]
fn cube_rotation_returns_and_center_never_moves() {
    // A cube turned four times by 90 degrees about x comes back to itself,
    // within epsilon, and its center never moves.
    let center = v3(1.0, 2.0, 3.0);
    let cube = Cube::new(center, Fp(2.0));
    let mut shape = cube.create();
    let original = shape.vertexes().clone();
    let angles = [AngleUnit::new(Axis::X, Fp(90.0))];
    for _ in 0..4 {
        shape.rotate(&angles);
        assert_eq!(shape.center().x.0, 1.0);
        assert_eq!(shape.center().y.0, 2.0);
        assert_eq!(shape.center().z.0, 3.0);
    }
    for (a, b) in shape.vertexes().iter().zip(original.iter()) {
        assert!(close(a.x.0, b.x.0));
        assert!(close(a.y.0, b.y.0));
        assert!(close(a.z.0, b.z.0));
    }
}

#[test]
fn cube_rotation_integer_exact() {
    // Two 180-degree turns about x, as exact integer quaternions.
    let center = Vec3::new(0i64, 0, 10);
    let cube = Cube::new(center, 4i64);
    let mut shape = cube.create();
    let original = shape.vertexes().clone();
    let q = Quaternion::new(1i64, 0, 0, 0);
    shape.raw_rotate(q);
    shape.raw_rotate(q);
    assert_eq!(shape.vertexes(), &original);
    assert_eq!(shape.center(), &Vec3::new(0i64, 0, 10));
}

#[test]
fn angle_unification_order() {
    let ax = AngleUnit::new(Axis::X, Fp(90.0));
    let ay = AngleUnit::new(Axis::Y, Fp(90.0));
    let xy = AngleUnit::unification_to_quater(&[ax, ay]);
    let yx = AngleUnit::unification_to_quater(&[ay, ax]);
    // Quaternion products do not commute: the order changes the result.
    assert!(!close(xy.x.0, yx.x.0) || !close(xy.y.0, yx.y.0) || !close(xy.z.0, yx.z.0));
}

#[test]
fn camera_moves_along_local_axes() {
    // A camera turned 180 degrees about y sees "forward" as world -z.
    let turned = Camera::from_angles(v3(0.0, 0.0, 0.0), &[AngleUnit::new(Axis::Y, Fp(180.0))]);
    let step = v3(0.0, 0.0, 0.5);
    let delta = step.to_raw_rotated(*turned.quater());
    assert!(close(delta.z.0, -0.5));
    assert!(close(delta.x.0, 0.0));
}

#[test]
fn matrix_identity_fixes_vectors() {
    let m: Matrix4<i64> = Matrix4::unit();
    let v = Vec4::new(5i64, -2, 7, 1);
    assert_eq!(m.mul_vec(v), v);
}

#[test]
fn displacement_matrix_translates() {
    let m = Vec3::new(2i64, 3, 4).to_displacement_matrix();
    let p = Vec4::new(1i64, 1, 1, 1);
    assert_eq!(m.mul_vec(p), Vec4::new(3i64, 4, 5, 1));
}

#[test]
fn shape_new_keeps_data() {
    let vs = vec![Vec3::new(0i64, 0, 0), Vec3::new(1i64, 0, 0)];
    let es = vec![EdgeUnit(0, 1)];
    let shape = Shape::new(vs.clone(), es.clone(), Vec3::new(0i64, 0, 0));
    assert_eq!(shape.vertexes(), &vs);
    assert_eq!(shape.edges(), &es);
}

#[test]
fn scene_rotates_all_shapes() {
    let cube = Cube::new(Vec3::new(0i64, 0, 0), 2i64);
    let shapes = vec![cube.create(), cube.create()];
    let camera = Camera::new(Vec3::new(0i64, 0, 0), Quaternion::unit());
    let mut scene = Scene::new(shapes, camera);
    let q = Quaternion::new(0i64, 1, 0, 0);
    scene.raw_rotate_shapes(q);
    scene.raw_rotate_shapes(q);
    let expected = cube.create();
    assert_eq!(scene.shapes()[0].vertexes(), expected.vertexes());
    assert_eq!(scene.shapes()[1].vertexes(), expected.vertexes());
}
