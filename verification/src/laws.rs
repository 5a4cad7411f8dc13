//! Algebraic laws of quaternion rotation, proved for the `i64` scalar.
//!
//! The scalar's operations wrap at the `i64` range.  The laws therefore ask
//! for a rotation quaternion of squared norm one over the unbounded integers
//! (exactly the unit quaternions representable in integers) and for vector
//! components small enough that no intermediate product wraps; under those
//! premises the wrapped arithmetic coincides with integer arithmetic and the
//! classical identities hold exactly.

use vstd::prelude::*;
use crate::vector::quaternion::{Quaternion, qmul_s};
use crate::vector::vec3::{Vec3, rotated_s};
use crate::num_traits::Arith;

verus! {

/// A quaternion as a tuple of unbounded integers `(x, y, z, w)`.
pub open spec fn qi(q: Quaternion<i64>) -> (int, int, int, int) {
    (q.x as int, q.y as int, q.z as int, q.w as int)
}

/// A vector as a purely imaginary quaternion of unbounded integers.
pub open spec fn vi(v: Vec3<i64>) -> (int, int, int, int) {
    (v.x as int, v.y as int, v.z as int, 0int)
}

/// The Hamilton product over unbounded integers.
pub open spec fn qmul_i(a: (int, int, int, int), b: (int, int, int, int)) -> (
    int,
    int,
    int,
    int,
) {
    (
        a.3 * b.0 + a.0 * b.3 + a.1 * b.2 - a.2 * b.1,
        a.3 * b.1 - a.0 * b.2 + a.1 * b.3 + a.2 * b.0,
        a.3 * b.2 + a.0 * b.1 - a.1 * b.0 + a.2 * b.3,
        a.3 * b.3 - a.0 * b.0 - a.1 * b.1 - a.2 * b.2,
    )
}

/// The conjugate over unbounded integers.
pub open spec fn conj_i(a: (int, int, int, int)) -> (int, int, int, int) {
    (-a.0, -a.1, -a.2, a.3)
}

/// The squared norm over unbounded integers.
pub open spec fn norm_sq_i(a: (int, int, int, int)) -> int {
    a.0 * a.0 + a.1 * a.1 + a.2 * a.2 + a.3 * a.3
}

/// All four components within `[-m, m]`.
pub open spec fn q_bounded(q: Quaternion<i64>, m: int) -> bool {
    &&& -m <= q.x <= m
    &&& -m <= q.y <= m
    &&& -m <= q.z <= m
    &&& -m <= q.w <= m
}

/// All three components within `[-m, m]`.
pub open spec fn v_bounded(v: Vec3<i64>, m: int) -> bool {
    &&& -m <= v.x <= m
    &&& -m <= v.y <= m
    &&& -m <= v.z <= m
}

pub open spec fn t_bounded(a: (int, int, int, int), m: int) -> bool {
    &&& -m <= a.0 <= m
    &&& -m <= a.1 <= m
    &&& -m <= a.2 <= m
    &&& -m <= a.3 <= m
}

#[verifier::spinoff_prover]
proof fn lemma_assoc_poly_x(ax: int, ay: int, az: int, aw: int, bx: int, by: int, bz: int, bw: int, cx: int, cy: int, cz: int, cw: int)
    ensures
        (aw * bw - ax * bx - ay * by - az * bz) * cx + (aw * bx + ax * bw + ay * bz - az * by) * cw + (aw * by - ax * bz + ay * bw + az * bx) * cz - (aw * bz + ax * by - ay * bx + az * bw) * cy == aw * (bw * cx + bx * cw + by * cz - bz * cy) + ax * (bw * cw - bx * cx - by * cy - bz * cz) + ay * (bw * cz + bx * cy - by * cx + bz * cw) - az * (bw * cy - bx * cz + by * cw + bz * cx),
{
    broadcast use vstd::arithmetic::mul::group_mul_properties;

}

#[verifier::spinoff_prover]
proof fn lemma_assoc_poly_y(ax: int, ay: int, az: int, aw: int, bx: int, by: int, bz: int, bw: int, cx: int, cy: int, cz: int, cw: int)
    ensures
        (aw * bw - ax * bx - ay * by - az * bz) * cy - (aw * bx + ax * bw + ay * bz - az * by) * cz + (aw * by - ax * bz + ay * bw + az * bx) * cw + (aw * bz + ax * by - ay * bx + az * bw) * cx == aw * (bw * cy - bx * cz + by * cw + bz * cx) - ax * (bw * cz + bx * cy - by * cx + bz * cw) + ay * (bw * cw - bx * cx - by * cy - bz * cz) + az * (bw * cx + bx * cw + by * cz - bz * cy),
{
    broadcast use vstd::arithmetic::mul::group_mul_properties;

}

#[verifier::spinoff_prover]
proof fn lemma_assoc_poly_z(ax: int, ay: int, az: int, aw: int, bx: int, by: int, bz: int, bw: int, cx: int, cy: int, cz: int, cw: int)
    ensures
        (aw * bw - ax * bx - ay * by - az * bz) * cz + (aw * bx + ax * bw + ay * bz - az * by) * cy - (aw * by - ax * bz + ay * bw + az * bx) * cx + (aw * bz + ax * by - ay * bx + az * bw) * cw == aw * (bw * cz + bx * cy - by * cx + bz * cw) + ax * (bw * cy - bx * cz + by * cw + bz * cx) - ay * (bw * cx + bx * cw + by * cz - bz * cy) + az * (bw * cw - bx * cx - by * cy - bz * cz),
{
    broadcast use vstd::arithmetic::mul::group_mul_properties;

}

#[verifier::spinoff_prover]
proof fn lemma_assoc_poly_w(ax: int, ay: int, az: int, aw: int, bx: int, by: int, bz: int, bw: int, cx: int, cy: int, cz: int, cw: int)
    ensures
        (aw * bw - ax * bx - ay * by - az * bz) * cw - (aw * bx + ax * bw + ay * bz - az * by) * cx - (aw * by - ax * bz + ay * bw + az * bx) * cy - (aw * bz + ax * by - ay * bx + az * bw) * cz == aw * (bw * cw - bx * cx - by * cy - bz * cz) - ax * (bw * cx + bx * cw + by * cz - bz * cy) - ay * (bw * cy - bx * cz + by * cw + bz * cx) - az * (bw * cz + bx * cy - by * cx + bz * cw),
{
    broadcast use vstd::arithmetic::mul::group_mul_properties;

}

/// The Hamilton product over the integers is associative.
#[verifier::spinoff_prover]
proof fn lemma_qmul_i_assoc(
    a: (int, int, int, int),
    b: (int, int, int, int),
    c: (int, int, int, int),
)
    ensures
        qmul_i(qmul_i(a, b), c) == qmul_i(a, qmul_i(b, c)),
{
    lemma_assoc_poly_x(a.0, a.1, a.2, a.3, b.0, b.1, b.2, b.3, c.0, c.1, c.2, c.3);
    lemma_assoc_poly_y(a.0, a.1, a.2, a.3, b.0, b.1, b.2, b.3, c.0, c.1, c.2, c.3);
    lemma_assoc_poly_z(a.0, a.1, a.2, a.3, b.0, b.1, b.2, b.3, c.0, c.1, c.2, c.3);
    lemma_assoc_poly_w(a.0, a.1, a.2, a.3, b.0, b.1, b.2, b.3, c.0, c.1, c.2, c.3);
}

proof fn lemma_conj_mul_poly(ax: int, ay: int, az: int, aw: int)
    by (nonlinear_arith)
    ensures
        aw * ax + (-ax) * aw + (-ay) * az - (-az) * ay == 0,
        aw * ay - (-ax) * az + (-ay) * aw + (-az) * ax == 0,
        aw * az + (-ax) * ay - (-ay) * ax + (-az) * aw == 0,
        aw * aw - (-ax) * ax - (-ay) * ay - (-az) * az == ax * ax + ay * ay + az * az + aw * aw,
        aw * (-ax) + ax * aw + ay * (-az) - az * (-ay) == 0,
        aw * (-ay) - ax * (-az) + ay * aw + az * (-ax) == 0,
        aw * (-az) + ax * (-ay) - ay * (-ax) + az * aw == 0,
        aw * aw - ax * (-ax) - ay * (-ay) - az * (-az) == ax * ax + ay * ay + az * az + aw * aw,
{
}

proof fn lemma_conj_anti_poly(ax: int, ay: int, az: int, aw: int, bx: int, by: int, bz: int, bw: int)
    by (nonlinear_arith)
    ensures
        -(aw * bx + ax * bw + ay * bz - az * by) == bw * (-ax) + (-bx) * aw + (-by) * (-az) - (-bz) * (-ay),
        -(aw * by - ax * bz + ay * bw + az * bx) == bw * (-ay) - (-bx) * (-az) + (-by) * aw + (-bz) * (-ax),
        -(aw * bz + ax * by - ay * bx + az * bw) == bw * (-az) + (-bx) * (-ay) - (-by) * (-ax) + (-bz) * aw,
        aw * bw - ax * bx - ay * by - az * bz == bw * aw - (-bx) * (-ax) - (-by) * (-ay) - (-bz) * (-az),
{
}

/// A quaternion times its conjugate, either way round, is the scalar
/// quaternion of its squared norm.
#[verifier::spinoff_prover]
proof fn lemma_conj_mul_i(a: (int, int, int, int))
    ensures
        qmul_i(conj_i(a), a) == (0int, 0int, 0int, norm_sq_i(a)),
        qmul_i(a, conj_i(a)) == (0int, 0int, 0int, norm_sq_i(a)),
{
    lemma_conj_mul_poly(a.0, a.1, a.2, a.3);
}

/// Conjugation reverses a Hamilton product.
#[verifier::spinoff_prover]
proof fn lemma_conj_anti_i(a: (int, int, int, int), b: (int, int, int, int))
    ensures
        conj_i(qmul_i(a, b)) == qmul_i(conj_i(b), conj_i(a)),
{
    lemma_conj_anti_poly(a.0, a.1, a.2, a.3, b.0, b.1, b.2, b.3);
}

/// The identity quaternion is neutral on both sides.
#[verifier::spinoff_prover]
proof fn lemma_qmul_i_unit(a: (int, int, int, int))
    ensures
        qmul_i((0int, 0int, 0int, 1int), a) == a,
        qmul_i(a, (0int, 0int, 0int, 1int)) == a,
{
}

/// The negation of a quaternion, componentwise.
pub open spec fn neg_t(a: (int, int, int, int)) -> (int, int, int, int) {
    (-a.0, -a.1, -a.2, -a.3)
}

proof fn lemma_qmul_neg_poly(ax: int, ay: int, az: int, aw: int, bx: int, by: int, bz: int, bw: int)
    by (nonlinear_arith)
    ensures
        (-aw) * bx + (-ax) * bw + (-ay) * bz - (-az) * by == -(aw * bx + ax * bw + ay * bz - az * by),
        (-aw) * by - (-ax) * bz + (-ay) * bw + (-az) * bx == -(aw * by - ax * bz + ay * bw + az * bx),
        (-aw) * bz + (-ax) * by - (-ay) * bx + (-az) * bw == -(aw * bz + ax * by - ay * bx + az * bw),
        (-aw) * bw - (-ax) * bx - (-ay) * by - (-az) * bz == -(aw * bw - ax * bx - ay * by - az * bz),
        aw * (-bx) + ax * (-bw) + ay * (-bz) - az * (-by) == -(aw * bx + ax * bw + ay * bz - az * by),
        aw * (-by) - ax * (-bz) + ay * (-bw) + az * (-bx) == -(aw * by - ax * bz + ay * bw + az * bx),
        aw * (-bz) + ax * (-by) - ay * (-bx) + az * (-bw) == -(aw * bz + ax * by - ay * bx + az * bw),
        aw * (-bw) - ax * (-bx) - ay * (-by) - az * (-bz) == -(aw * bw - ax * bx - ay * by - az * bz),
{
}

proof fn lemma_qmul_neg_left(a: (int, int, int, int), b: (int, int, int, int))
    ensures
        qmul_i(neg_t(a), b) == neg_t(qmul_i(a, b)),
{
    lemma_qmul_neg_poly(a.0, a.1, a.2, a.3, b.0, b.1, b.2, b.3);
}

proof fn lemma_qmul_neg_right(a: (int, int, int, int), b: (int, int, int, int))
    ensures
        qmul_i(a, neg_t(b)) == neg_t(qmul_i(a, b)),
{
    lemma_qmul_neg_poly(a.0, a.1, a.2, a.3, b.0, b.1, b.2, b.3);
}

/// The sandwich product of a purely imaginary quaternion has no scalar part:
/// conjugation sends it to its own negation, so the scalar part equals its
/// own negative.
proof fn lemma_sandwich_pure_i(q: (int, int, int, int), v: (int, int, int, int))
    requires
        v.3 == 0,
    ensures
        qmul_i(qmul_i(q, v), conj_i(q)).3 == 0,
{
    let qv = qmul_i(q, v);
    let cq = conj_i(q);
    let s = qmul_i(qv, cq);
    lemma_conj_anti_i(qv, cq);
    lemma_conj_anti_i(q, v);
    assert(conj_i(cq) == q);
    assert(conj_i(v) == neg_t(v));
    assert(conj_i(s) == qmul_i(q, qmul_i(conj_i(v), cq)));
    lemma_qmul_neg_left(v, cq);
    lemma_qmul_neg_right(q, qmul_i(v, cq));
    assert(conj_i(s) == neg_t(qmul_i(q, qmul_i(v, cq))));
    lemma_qmul_i_assoc(q, v, cq);
    assert(conj_i(s) == neg_t(s));
    assert(s.3 == -s.3);
}

/// A product of values bounded by `mx` and `my` is bounded by `mx * my`.
proof fn lemma_mul_bound(x: int, y: int, mx: int, my: int)
    by (nonlinear_arith)
    requires
        -mx <= x <= mx,
        -my <= y <= my,
        0 <= mx,
        0 <= my,
    ensures
        -(mx * my) <= x * y <= mx * my,
        0 <= mx * my,
{
}

/// Reducing an in-range value into the `i64` range changes nothing.
proof fn lemma_signed_crop_id(v: int)
    requires
        i64::MIN <= v <= i64::MAX,
    ensures
        vstd::wrapping::i64_specs::signed_crop(v) as int == v,
{
    let r = 0x1_0000_0000_0000_0000int;
    if v >= 0 {
        assert(v % r == v) by {
            vstd::arithmetic::div_mod::lemma_fundamental_div_mod_converse_mod(v, r, 0, v);
        }
    } else {
        assert(v % r == v + r) by {
            vstd::arithmetic::div_mod::lemma_fundamental_div_mod_converse_mod(v, r, -1, v + r);
        }
    }
}

/// For bounded factors the wrapped product is the integer product.
proof fn lemma_wmul_exact(x: i64, y: i64, mx: int, my: int)
    requires
        -mx <= x <= mx,
        -my <= y <= my,
        0 <= mx,
        0 <= my,
        mx * my <= i64::MAX,
    ensures
        vstd::wrapping::i64_specs::wrapping_mul(x, y) as int == x * y,
        -(mx * my) <= x * y <= mx * my,
        0 <= mx * my,
{
    lemma_mul_bound(x as int, y as int, mx, my);
    lemma_signed_crop_id(x * y);
}

/// For bounded operands the wrapped Hamilton product is the integer Hamilton
/// product, and its components are bounded by four times the product of the
/// operand bounds.
#[verifier::spinoff_prover]
proof fn lemma_qmul_exact(a: Quaternion<i64>, b: Quaternion<i64>, ma: int, mb: int)
    requires
        q_bounded(a, ma),
        q_bounded(b, mb),
        0 <= ma,
        0 <= mb,
        4 * ma * mb <= i64::MAX,
    ensures
        qi(qmul_s(a, b)) == qmul_i(qi(a), qi(b)),
        q_bounded(qmul_s(a, b), 4 * ma * mb),
        t_bounded(qmul_i(qi(a), qi(b)), 4 * ma * mb),
{
    assert(4 * (ma * mb) == 4 * ma * mb) by (nonlinear_arith);
    lemma_wmul_exact(a.w, b.x, ma, mb);
    lemma_wmul_exact(a.x, b.w, ma, mb);
    lemma_wmul_exact(a.y, b.z, ma, mb);
    lemma_wmul_exact(a.z, b.y, ma, mb);
    lemma_wmul_exact(a.w, b.y, ma, mb);
    lemma_wmul_exact(a.x, b.z, ma, mb);
    lemma_wmul_exact(a.y, b.w, ma, mb);
    lemma_wmul_exact(a.z, b.x, ma, mb);
    lemma_wmul_exact(a.w, b.z, ma, mb);
    lemma_wmul_exact(a.x, b.y, ma, mb);
    lemma_wmul_exact(a.y, b.x, ma, mb);
    lemma_wmul_exact(a.z, b.w, ma, mb);
    lemma_wmul_exact(a.w, b.w, ma, mb);
    lemma_wmul_exact(a.x, b.x, ma, mb);
    lemma_wmul_exact(a.y, b.y, ma, mb);
    lemma_wmul_exact(a.z, b.z, ma, mb);
}

/// Conjugating a bounded quaternion negates the vector part exactly.
#[verifier::spinoff_prover]
proof fn lemma_conj_exact(q: Quaternion<i64>, m: int)
    requires
        q_bounded(q, m),
        0 <= m <= i64::MAX,
    ensures
        qi(q.conjugated_s()) == conj_i(qi(q)),
        q_bounded(q.conjugated_s(), m),
{
}

/// A squared norm of one over the integers bounds every component by one.
#[verifier::spinoff_prover]
proof fn lemma_unit_bounded(q: Quaternion<i64>)
    requires
        norm_sq_i(qi(q)) == 1,
    ensures
        q_bounded(q, 1),
{
    assert(q_bounded(q, 1)) by (nonlinear_arith)
        requires
            (q.x as int) * (q.x as int) + (q.y as int) * (q.y as int) + (q.z as int) * (q.z
                as int) + (q.w as int) * (q.w as int) == 1,
    ;
}

/// Rotating by a unit quaternion and then by its conjugate returns every
/// vector unchanged, as long as the vector's components are small enough
/// that no intermediate product leaves the `i64` range.
#[verifier::spinoff_prover]
pub proof fn lemma_rotate_round_trip(v: Vec3<i64>, q: Quaternion<i64>, m: int)
    requires
        v_bounded(v, m),
        0 <= m,
        256 * m <= i64::MAX,
        norm_sq_i(qi(q)) == 1,
    ensures
        rotated_s(rotated_s(v, q), q.conjugated_s()) == v,
{
    lemma_unit_bounded(q);
    let qt = qi(q);
    let ct = conj_i(qt);
    let vt = vi(v);
    lemma_conj_exact(q, 1);
    let vq = v.into_quater_s();
    assert(qi(vq) == vt);
    assert(q_bounded(vq, m));

    // First sandwich: wrapped arithmetic equals integer arithmetic.
    lemma_qmul_exact(q, vq, 1, m);
    let a1 = qmul_s(q, vq);
    lemma_qmul_exact(a1, q.conjugated_s(), 4 * m, 1);
    let r1 = qmul_s(a1, q.conjugated_s());
    assert(qi(r1) == qmul_i(qmul_i(qt, vt), ct));

    // Its scalar part vanishes, so dropping and restoring `w` keeps it.
    lemma_sandwich_pure_i(qt, vt);
    let u = rotated_s(v, q);
    let uq = u.into_quater_s();
    assert(qi(uq) == qmul_i(qmul_i(qt, vt), ct));
    assert(q_bounded(uq, 16 * m));

    // Second sandwich, by the conjugate.
    let cq = q.conjugated_s();
    lemma_conj_exact(cq, 1);
    assert(qi(cq.conjugated_s()) == qt);
    lemma_qmul_exact(cq, uq, 1, 16 * m);
    let a2 = qmul_s(cq, uq);
    lemma_qmul_exact(a2, cq.conjugated_s(), 64 * m, 1);
    let r2 = qmul_s(a2, cq.conjugated_s());
    assert(qi(r2) == qmul_i(qmul_i(ct, qi(uq)), qt));

    // Regroup the integer products around the norm.
    lemma_qmul_i_assoc(ct, qmul_i(qt, vt), ct);
    lemma_qmul_i_assoc(ct, qt, vt);
    lemma_conj_mul_i(qt);
    lemma_qmul_i_unit(vt);
    assert(qmul_i(ct, qmul_i(qmul_i(qt, vt), ct)) == qmul_i(vt, ct));
    lemma_qmul_i_assoc(vt, ct, qt);
    assert(qmul_i(qmul_i(vt, ct), qt) == vt);
    assert(qi(r2) == vt);
}

/// Two rotations in sequence are the one rotation by the product quaternion:
/// rotating by `q` and then by `p` is rotating by `p * q`.
#[verifier::spinoff_prover]
pub proof fn lemma_rotate_compose(v: Vec3<i64>, q: Quaternion<i64>, p: Quaternion<i64>, m: int)
    requires
        v_bounded(v, m),
        0 <= m,
        256 * m <= i64::MAX,
        norm_sq_i(qi(q)) == 1,
        norm_sq_i(qi(p)) == 1,
    ensures
        rotated_s(rotated_s(v, q), p) == rotated_s(v, qmul_s(p, q)),
{
    lemma_unit_bounded(q);
    lemma_unit_bounded(p);
    let qt = qi(q);
    let pt = qi(p);
    let vt = vi(v);
    lemma_conj_exact(q, 1);
    lemma_conj_exact(p, 1);
    let vq = v.into_quater_s();
    assert(qi(vq) == vt);

    // Left side: the first sandwich, then the second.
    lemma_qmul_exact(q, vq, 1, m);
    lemma_qmul_exact(qmul_s(q, vq), q.conjugated_s(), 4 * m, 1);
    lemma_sandwich_pure_i(qt, vt);
    let u = rotated_s(v, q);
    let uq = u.into_quater_s();
    assert(qi(uq) == qmul_i(qmul_i(qt, vt), conj_i(qt)));
    assert(q_bounded(uq, 16 * m));
    lemma_qmul_exact(p, uq, 1, 16 * m);
    lemma_qmul_exact(qmul_s(p, uq), p.conjugated_s(), 64 * m, 1);
    let lhs = qmul_i(qmul_i(pt, qi(uq)), conj_i(pt));
    assert(qi(rotated_s(u, p).into_quater_s()) == (lhs.0, lhs.1, lhs.2, 0int));

    // Right side: one sandwich by the product quaternion.
    lemma_qmul_exact(p, q, 1, 1);
    let pq = qmul_s(p, q);
    assert(qi(pq) == qmul_i(pt, qt));
    lemma_conj_exact(pq, 4);
    lemma_qmul_exact(pq, vq, 4, m);
    lemma_qmul_exact(qmul_s(pq, vq), pq.conjugated_s(), 16 * m, 4);
    lemma_sandwich_pure_i(qi(pq), vt);
    let rhs = qmul_i(qmul_i(qmul_i(pt, qt), vt), conj_i(qmul_i(pt, qt)));
    assert(qi(rotated_s(v, pq).into_quater_s()) == (rhs.0, rhs.1, rhs.2, 0int));

    // The two sides agree over the integers.
    lemma_conj_anti_i(pt, qt);
    lemma_qmul_i_assoc(qmul_i(pt, qt), vt, qmul_i(conj_i(qt), conj_i(pt)));
    lemma_qmul_i_assoc(pt, qt, vt);
    lemma_qmul_i_assoc(vt, conj_i(qt), conj_i(pt));
    lemma_qmul_i_assoc(qmul_i(pt, qmul_i(qt, vt)), conj_i(qt), conj_i(pt));
    lemma_qmul_i_assoc(pt, qmul_i(qt, vt), conj_i(qt));
    lemma_qmul_i_assoc(qt, vt, conj_i(qt));
    assert(rhs == lhs);
}

} // verus!
