//! Fixed-point 3-component vectors.
//!
//! Executable values are `Vec3Fixed`, whose components count thousandths
//! of a world unit. Specifications reason over `Vec3i`, the same vector
//! with unbounded integer components, so that contracts can speak about
//! products and squared norms without overflow concerns.

use vstd::prelude::*;
use crate::fixed::{div_trunc_spec, sqrt_floor, div_trunc_i128, isqrt_u128, MILLI};

verus! {

/// Largest coordinate magnitude (in thousandths) the mesh pipeline
/// accepts; keeps every edge, cross product and squared norm the
/// library computes inside the machine integer ranges.
pub const MAX_COORD: i64 = 100_000_000;

/// A point or direction in thousandths of a world unit.
#[derive(Clone, Copy, Debug, PartialEq, Eq, Structural)]
pub struct Vec3Fixed {
    pub x: i64,
    pub y: i64,
    pub z: i64,
}

/// The mathematical (unbounded) shadow of a `Vec3Fixed`.
pub ghost struct Vec3i {
    pub x: int,
    pub y: int,
    pub z: int,
}

pub open spec fn vec3i(v: Vec3Fixed) -> Vec3i {
    Vec3i { x: v.x as int, y: v.y as int, z: v.z as int }
}

pub open spec fn sub_spec(a: Vec3i, b: Vec3i) -> Vec3i {
    Vec3i { x: a.x - b.x, y: a.y - b.y, z: a.z - b.z }
}

pub open spec fn add_spec(a: Vec3i, b: Vec3i) -> Vec3i {
    Vec3i { x: a.x + b.x, y: a.y + b.y, z: a.z + b.z }
}

pub open spec fn cross_spec(a: Vec3i, b: Vec3i) -> Vec3i {
    Vec3i {
        x: a.y * b.z - a.z * b.y,
        y: a.z * b.x - a.x * b.z,
        z: a.x * b.y - a.y * b.x,
    }
}

pub open spec fn norm_sq_spec(v: Vec3i) -> int {
    v.x * v.x + v.y * v.y + v.z * v.z
}

/// Squared distance between two fixed-point points.
pub open spec fn dist_sq_spec(a: Vec3Fixed, b: Vec3Fixed) -> int {
    norm_sq_spec(sub_spec(vec3i(a), vec3i(b)))
}

/// Scaling a vector to length `MILLI` (one world unit): each component
/// becomes `c * MILLI / |v|` rounded toward zero; the zero vector stays
/// zero.
pub open spec fn normalize_spec(v: Vec3i) -> Vec3i {
    let l = sqrt_floor(norm_sq_spec(v));
    if l == 0 {
        Vec3i { x: 0, y: 0, z: 0 }
    } else {
        Vec3i {
            x: div_trunc_spec(v.x * (MILLI as int), l),
            y: div_trunc_spec(v.y * (MILLI as int), l),
            z: div_trunc_spec(v.z * (MILLI as int), l),
        }
    }
}

/// `|x * y| <= bx * by` whenever `|x| <= bx` and `|y| <= by`.
pub proof fn lemma_mul_bound(x: int, y: int, bx: int, by: int)
    by (nonlinear_arith)
    requires
        -bx <= x <= bx,
        -by <= y <= by,
        0 <= bx,
        0 <= by,
    ensures
        -(bx * by) <= x * y <= bx * by,
{
}

/// A component of a vector is no longer than the floor root of the
/// squared norm.
pub proof fn lemma_component_le_norm(c: int, rest: int, l: int)
    by (nonlinear_arith)
    requires
        0 <= rest,
        0 <= l,
        c * c + rest < (l + 1) * (l + 1),
    ensures
        -l <= c <= l,
{
}

/// One component of the normalization algebra, in remainder form:
/// `1000 * v = l * q + r` squared and bounded.
proof fn lemma_norm_unit_component(vx: int, q: int, r: int, l: int)
    by (nonlinear_arith)
    requires
        l >= 1000,
        -l <= vx <= l,
        1000 * vx == l * q + r,
        -l < r < l,
        vx * r >= 0,
    ensures
        l * l * (q * q) == 1_000_000 * (vx * vx) - 2000 * (vx * r) + r * r,
        0 <= 2000 * (vx * r) <= 2000 * (l * l),
        0 <= r * r <= l * l,
        0 <= q * q,
{
}

/// Adding the three component identities and dividing out `l * l`.
proof fn lemma_norm_unit_total(
    q1: int, q2: int, q3: int, c1: int, c2: int, c3: int,
    e1: int, e2: int, e3: int, v1: int, v2: int, v3: int, s: int, l: int,
)
    requires
        l >= 1000,
        s == v1 * v1 + v2 * v2 + v3 * v3,
        l * l <= s < (l + 1) * (l + 1),
        l * l * (q1 * q1) == 1_000_000 * (v1 * v1) - 2000 * c1 + e1,
        l * l * (q2 * q2) == 1_000_000 * (v2 * v2) - 2000 * c2 + e2,
        l * l * (q3 * q3) == 1_000_000 * (v3 * v3) - 2000 * c3 + e3,
        0 <= 2000 * c1 <= 2000 * (l * l),
        0 <= 2000 * c2 <= 2000 * (l * l),
        0 <= 2000 * c3 <= 2000 * (l * l),
        0 <= e1 <= l * l,
        0 <= e2 <= l * l,
        0 <= e3 <= l * l,
    ensures
        994_000 <= q1 * q1 + q2 * q2 + q3 * q3 <= 1_002_003,
{
    let t = l * l;
    let sq = q1 * q1 + q2 * q2 + q3 * q3;
    assert(t >= 1_000_000) by (nonlinear_arith)
        requires
            l >= 1000,
            t == l * l,
    ;
    assert(t * sq == t * (q1 * q1) + t * (q2 * q2) + t * (q3 * q3)) by (nonlinear_arith)
        requires
            sq == q1 * q1 + q2 * q2 + q3 * q3,
    ;
    assert(t * sq == 1_000_000 * s - 2000 * (c1 + c2 + c3) + (e1 + e2 + e3));
    assert(994_000 * t <= t * sq);
    assert((l + 1) * (l + 1) == t + 2 * l + 1) by (nonlinear_arith)
        requires
            t == l * l,
    ;
    assert(2_000_000 * l <= 2000 * t) by (nonlinear_arith)
        requires
            l >= 1000,
            t == l * l,
    ;
    assert(t * sq <= 1_002_003 * t);
    assert(994_000 <= sq) by (nonlinear_arith)
        requires
            994_000 * t <= t * sq,
            t >= 1_000_000,
    ;
    assert(sq <= 1_002_003) by (nonlinear_arith)
        requires
            t * sq <= 1_002_003 * t,
            t >= 1_000_000,
    ;
}

/// Normalizing any vector at least one world unit long gives a vector
/// of unit length up to the fixed-point rounding error: its squared
/// length, in squared thousandths, lands within [994_000, 1_002_003]
/// around the exact 1_000_000. Shorter vectors round too coarsely for
/// such a bound.
pub proof fn lemma_normalize_near_unit(v: Vec3i)
    requires
        sqrt_floor(norm_sq_spec(v)) >= MILLI as int,
    ensures
        994_000 <= norm_sq_spec(normalize_spec(v)) <= 1_002_003,
{
    let s = norm_sq_spec(v);
    let l = sqrt_floor(s);
    assert(v.x * v.x >= 0 && v.y * v.y >= 0 && v.z * v.z >= 0) by (nonlinear_arith);
    crate::fixed::lemma_sqrt_floor_bounds(s);
    lemma_component_le_norm(v.x, v.y * v.y + v.z * v.z, l);
    lemma_component_le_norm(v.y, v.x * v.x + v.z * v.z, l);
    lemma_component_le_norm(v.z, v.x * v.x + v.y * v.y, l);
    crate::fixed::lemma_div_trunc_rem(v.x * (MILLI as int), l);
    crate::fixed::lemma_div_trunc_rem(v.y * (MILLI as int), l);
    crate::fixed::lemma_div_trunc_rem(v.z * (MILLI as int), l);
    let q1 = div_trunc_spec(v.x * (MILLI as int), l);
    let q2 = div_trunc_spec(v.y * (MILLI as int), l);
    let q3 = div_trunc_spec(v.z * (MILLI as int), l);
    let r1 = v.x * (MILLI as int) - l * q1;
    let r2 = v.y * (MILLI as int) - l * q2;
    let r3 = v.z * (MILLI as int) - l * q3;
    assert(1000 * v.x == v.x * (MILLI as int)) by (nonlinear_arith);
    assert(1000 * v.y == v.y * (MILLI as int)) by (nonlinear_arith);
    assert(1000 * v.z == v.z * (MILLI as int)) by (nonlinear_arith);
    assert(v.x >= 0 ==> v.x * (MILLI as int) >= 0) by (nonlinear_arith);
    assert(v.x <= 0 ==> v.x * (MILLI as int) <= 0) by (nonlinear_arith);
    assert(v.y >= 0 ==> v.y * (MILLI as int) >= 0) by (nonlinear_arith);
    assert(v.y <= 0 ==> v.y * (MILLI as int) <= 0) by (nonlinear_arith);
    assert(v.z >= 0 ==> v.z * (MILLI as int) >= 0) by (nonlinear_arith);
    assert(v.z <= 0 ==> v.z * (MILLI as int) <= 0) by (nonlinear_arith);
    assert(v.x * r1 >= 0) by (nonlinear_arith)
        requires
            v.x >= 0 ==> r1 >= 0,
            v.x <= 0 ==> r1 <= 0,
    ;
    assert(v.y * r2 >= 0) by (nonlinear_arith)
        requires
            v.y >= 0 ==> r2 >= 0,
            v.y <= 0 ==> r2 <= 0,
    ;
    assert(v.z * r3 >= 0) by (nonlinear_arith)
        requires
            v.z >= 0 ==> r3 >= 0,
            v.z <= 0 ==> r3 <= 0,
    ;
    lemma_norm_unit_component(v.x, q1, r1, l);
    lemma_norm_unit_component(v.y, q2, r2, l);
    lemma_norm_unit_component(v.z, q3, r3, l);
    lemma_norm_unit_total(
        q1, q2, q3,
        v.x * r1, v.y * r2, v.z * r3,
        r1 * r1, r2 * r2, r3 * r3,
        v.x, v.y, v.z, s, l,
    );
    assert(normalize_spec(v) == (Vec3i { x: q1 as int, y: q2, z: q3 }));
}

/// Normalized components never leave `[-MILLI, MILLI]`.
pub proof fn lemma_normalize_components(v: Vec3i)
    ensures
        -(MILLI as int) <= normalize_spec(v).x <= MILLI as int,
        -(MILLI as int) <= normalize_spec(v).y <= MILLI as int,
        -(MILLI as int) <= normalize_spec(v).z <= MILLI as int,
{
    let s = norm_sq_spec(v);
    let l = sqrt_floor(s);
    assert(v.x * v.x >= 0 && v.y * v.y >= 0 && v.z * v.z >= 0) by (nonlinear_arith);
    crate::fixed::lemma_sqrt_floor_bounds(s);
    if l != 0 {
        lemma_component_le_norm(v.x, v.y * v.y + v.z * v.z, l);
        lemma_component_le_norm(v.y, v.x * v.x + v.z * v.z, l);
        lemma_component_le_norm(v.z, v.x * v.x + v.y * v.y, l);
        crate::fixed::lemma_div_trunc_bound(v.x * (MILLI as int), l, MILLI as int);
        crate::fixed::lemma_div_trunc_bound(v.y * (MILLI as int), l, MILLI as int);
        crate::fixed::lemma_div_trunc_bound(v.z * (MILLI as int), l, MILLI as int);
    }
}

/// Componentwise difference.
pub fn vec_sub(a: &Vec3Fixed, b: &Vec3Fixed) -> (r: Vec3Fixed)
    requires
        i64::MIN <= a.x - b.x <= i64::MAX,
        i64::MIN <= a.y - b.y <= i64::MAX,
        i64::MIN <= a.z - b.z <= i64::MAX,
    ensures
        vec3i(r) == sub_spec(vec3i(*a), vec3i(*b)),
{
    Vec3Fixed { x: a.x - b.x, y: a.y - b.y, z: a.z - b.z }
}

/// Componentwise sum.
pub fn vec_add(a: &Vec3Fixed, b: &Vec3Fixed) -> (r: Vec3Fixed)
    requires
        i64::MIN <= a.x + b.x <= i64::MAX,
        i64::MIN <= a.y + b.y <= i64::MAX,
        i64::MIN <= a.z + b.z <= i64::MAX,
    ensures
        vec3i(r) == add_spec(vec3i(*a), vec3i(*b)),
{
    Vec3Fixed { x: a.x + b.x, y: a.y + b.y, z: a.z + b.z }
}

/// Cross product of two bounded vectors.
pub fn vec_cross(a: &Vec3Fixed, b: &Vec3Fixed) -> (r: Vec3Fixed)
    requires
        -(2 * MAX_COORD) <= a.x <= 2 * MAX_COORD,
        -(2 * MAX_COORD) <= a.y <= 2 * MAX_COORD,
        -(2 * MAX_COORD) <= a.z <= 2 * MAX_COORD,
        -(2 * MAX_COORD) <= b.x <= 2 * MAX_COORD,
        -(2 * MAX_COORD) <= b.y <= 2 * MAX_COORD,
        -(2 * MAX_COORD) <= b.z <= 2 * MAX_COORD,
    ensures
        vec3i(r) == cross_spec(vec3i(*a), vec3i(*b)),
        -80_000_000_000_000_000 <= r.x <= 80_000_000_000_000_000,
        -80_000_000_000_000_000 <= r.y <= 80_000_000_000_000_000,
        -80_000_000_000_000_000 <= r.z <= 80_000_000_000_000_000,
{
    proof {
        lemma_mul_bound(a.y as int, b.z as int, 200_000_000, 200_000_000);
        lemma_mul_bound(a.z as int, b.y as int, 200_000_000, 200_000_000);
        lemma_mul_bound(a.z as int, b.x as int, 200_000_000, 200_000_000);
        lemma_mul_bound(a.x as int, b.z as int, 200_000_000, 200_000_000);
        lemma_mul_bound(a.x as int, b.y as int, 200_000_000, 200_000_000);
        lemma_mul_bound(a.y as int, b.x as int, 200_000_000, 200_000_000);
    }
    Vec3Fixed {
        x: a.y * b.z - a.z * b.y,
        y: a.z * b.x - a.x * b.z,
        z: a.x * b.y - a.y * b.x,
    }
}

/// Squared norm, computed in 128 bits.
pub fn vec_norm_sq(v: &Vec3Fixed) -> (r: i128)
    requires
        -4_000_000_000_000_000_000 <= v.x <= 4_000_000_000_000_000_000,
        -4_000_000_000_000_000_000 <= v.y <= 4_000_000_000_000_000_000,
        -4_000_000_000_000_000_000 <= v.z <= 4_000_000_000_000_000_000,
    ensures
        r as int == norm_sq_spec(vec3i(*v)),
        r >= 0,
{
    proof {
        lemma_mul_bound(v.x as int, v.x as int, 4_000_000_000_000_000_000,
            4_000_000_000_000_000_000);
        lemma_mul_bound(v.y as int, v.y as int, 4_000_000_000_000_000_000,
            4_000_000_000_000_000_000);
        lemma_mul_bound(v.z as int, v.z as int, 4_000_000_000_000_000_000,
            4_000_000_000_000_000_000);
        assert(v.x as int * v.x as int >= 0) by (nonlinear_arith);
        assert(v.y as int * v.y as int >= 0) by (nonlinear_arith);
        assert(v.z as int * v.z as int >= 0) by (nonlinear_arith);
    }
    (v.x as i128) * (v.x as i128) + (v.y as i128) * (v.y as i128)
        + (v.z as i128) * (v.z as i128)
}

/// Floor root of the squared norm: the vector's length in the same
/// thousandth units as its components.
pub fn vec_len(v: &Vec3Fixed) -> (l: u64)
    requires
        -4_000_000_000_000_000_000 <= v.x <= 4_000_000_000_000_000_000,
        -4_000_000_000_000_000_000 <= v.y <= 4_000_000_000_000_000_000,
        -4_000_000_000_000_000_000 <= v.z <= 4_000_000_000_000_000_000,
    ensures
        l as int == sqrt_floor(norm_sq_spec(vec3i(*v))),
{
    let n = vec_norm_sq(v);
    let l = isqrt_u128(n as u128);
    l
}

/// Scale a vector to length `MILLI`, rounding each component toward
/// zero; the zero vector is returned unchanged.
pub fn vec_normalize(v: &Vec3Fixed) -> (r: Vec3Fixed)
    requires
        -4_000_000_000_000_000_000 <= v.x <= 4_000_000_000_000_000_000,
        -4_000_000_000_000_000_000 <= v.y <= 4_000_000_000_000_000_000,
        -4_000_000_000_000_000_000 <= v.z <= 4_000_000_000_000_000_000,
    ensures
        vec3i(r) == normalize_spec(vec3i(*v)),
        -MILLI <= r.x <= MILLI,
        -MILLI <= r.y <= MILLI,
        -MILLI <= r.z <= MILLI,
{
    let n = vec_norm_sq(v);
    let l = isqrt_u128(n as u128);
    if l == 0 {
        Vec3Fixed { x: 0, y: 0, z: 0 }
    } else {
        proof {
            let li = l as int;
            let vi = vec3i(*v);
            assert(vi.y * vi.y >= 0 && vi.z * vi.z >= 0 && vi.x * vi.x >= 0)
                by (nonlinear_arith);
            lemma_component_le_norm(vi.x, vi.y * vi.y + vi.z * vi.z, li);
            lemma_component_le_norm(vi.y, vi.x * vi.x + vi.z * vi.z, li);
            lemma_component_le_norm(vi.z, vi.x * vi.x + vi.y * vi.y, li);
            crate::fixed::lemma_div_trunc_bound(vi.x * (MILLI as int), li, MILLI as int);
            crate::fixed::lemma_div_trunc_bound(vi.y * (MILLI as int), li, MILLI as int);
            crate::fixed::lemma_div_trunc_bound(vi.z * (MILLI as int), li, MILLI as int);
        }
        let x = div_trunc_i128((v.x as i128) * (MILLI as i128), l as i128) as i64;
        let y = div_trunc_i128((v.y as i128) * (MILLI as i128), l as i128) as i64;
        let z = div_trunc_i128((v.z as i128) * (MILLI as i128), l as i128) as i64;
        Vec3Fixed { x, y, z }
    }
}

} // verus!
