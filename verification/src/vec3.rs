//! Points and directions with fixed-point components.
//!
//! A component is an `i32`, so every vector lies in the cube that the scalar
//! range spans. Differences and squared lengths are computed exactly in wider
//! integers and described here over `int`.

use vstd::prelude::*;
use crate::fixed::{
    clamp, clamp_to, div_toward_zero, floor_sqrt, is_floor_sqrt, isqrt, lemma_floor_sqrt_exists,
    lemma_floor_sqrt_unique, lemma_square_monotone, magnitude, sat, saturate, trunc_div, ONE,
};

verus! {

/// A point or direction in the plane.
#[derive(Clone, Copy, Debug, PartialEq, Eq, Structural)]
pub struct Vec2 {
    pub x: i32,
    pub y: i32,
}

/// A point or direction in space.
#[derive(Clone, Copy, Debug, PartialEq, Eq, Structural)]
pub struct Vec3 {
    pub x: i32,
    pub y: i32,
    pub z: i32,
}

/// The squared Euclidean length of the offset `(dx, dy, dz)`.
pub open spec fn norm_sq3(dx: int, dy: int, dz: int) -> int {
    dx * dx + dy * dy + dz * dz
}

/// Whether `v` fits a component.
pub open spec fn in_range(v: int) -> bool {
    i32::MIN <= v <= i32::MAX
}

/// The largest magnitude among the components of the offset.
pub open spec fn largest(dx: int, dy: int, dz: int) -> int {
    let (ax, ay, az) = (magnitude(dx), magnitude(dy), magnitude(dz));
    if ax >= ay && ax >= az {
        ax
    } else if ay >= az {
        ay
    } else {
        az
    }
}

/// The power of two by which an offset is scaled up before its length is
/// taken, so that rounding the length to a whole number loses nothing that
/// matters: the smallest one that brings the largest magnitude `m` among
/// the components to `2^61` or more.
pub open spec fn spread(m: int) -> int
    decreases
        (if 0 < m < 0x2000_0000_0000_0000 {
            0x2000_0000_0000_0000 - m
        } else {
            0
        }),
{
    if 0 < m < 0x2000_0000_0000_0000 {
        2 * spread(2 * m)
    } else {
        1
    }
}

/// The magnitude `m` of a component after one more unit has been added to
/// it, if the component is not zero and the offset, of squared length
/// `length_sq`, is still shorter than `len`.
pub open spec fn bumped(m: int, d: int, length_sq: int, len: int) -> int {
    if d != 0 && length_sq < len * len {
        m + 1
    } else {
        m
    }
}

/// The magnitude `m` with the sign of `d`.
pub open spec fn signed(m: int, d: int) -> int {
    if d < 0 {
        -m
    } else {
        m
    }
}

/// The offset `(dx, dy, dz)`, which is not zero, stretched or shrunk to
/// length `len`. Each component is first scaled by `len / |d|` and rounded
/// toward zero; then, in the order `x`, `y`, `z`, one unit is added to the
/// magnitude of a non-zero component for as long as the offset is shorter
/// than `len`. The result has the direction of the offset to within one
/// unit in each component, and its length, rounded down, is exactly `len`.
pub open spec fn stretched(dx: int, dy: int, dz: int, len: int) -> (int, int, int) {
    let k = spread(largest(dx, dy, dz));
    let (ax, ay, az) = (magnitude(dx) * k, magnitude(dy) * k, magnitude(dz) * k);
    let n = floor_sqrt(norm_sq3(ax, ay, az));
    let (mx, my, mz) = ((ax * len) / n, (ay * len) / n, (az * len) / n);
    let bx = bumped(mx, dx, norm_sq3(mx, my, mz), len);
    let by = bumped(my, dy, norm_sq3(bx, my, mz), len);
    let bz = bumped(mz, dz, norm_sq3(bx, by, mz), len);
    (signed(bx, dx), signed(by, dy), signed(bz, dz))
}

/// The point at distance `len` from `origin` in the direction `(dx, dy, dz)`:
/// the origin moved by the direction stretched to length `len`. There is no
/// such point when the direction is zero, or when the sum leaves the
/// component range.
pub open spec fn place(origin: Vec3, dx: int, dy: int, dz: int, len: int) -> Option<Vec3> {
    let (wx, wy, wz) = stretched(dx, dy, dz, len);
    let x = origin.x + wx;
    let y = origin.y + wy;
    let z = origin.z + wz;
    if (dx != 0 || dy != 0 || dz != 0) && in_range(x) && in_range(y) && in_range(z) {
        Some(Vec3 { x: x as i32, y: y as i32, z: z as i32 })
    } else {
        None
    }
}

/// The scalar that stands for a product of two scalars, or a sum of such
/// products, that was computed exactly.
pub open spec fn fixed_of_wide(v: int) -> int {
    sat(trunc_div(v, ONE as int))
}

/// One component of the interpolation from `a` to `b` at parameter `t`.
pub open spec fn lerp_component(a: int, b: int, t: int) -> int {
    a + trunc_div((b - a) * clamp(t, 0, ONE as int), ONE as int)
}

impl Vec2 {
    /// The vector with the given components.
    pub fn new(x: i32, y: i32) -> (v: Vec2)
        ensures
            v == (Vec2 { x, y }),
    {
        Vec2 { x, y }
    }
}

impl Vec3 {
    /// The vector with the given components.
    pub fn new(x: i32, y: i32, z: i32) -> (v: Vec3)
        ensures
            v == (Vec3 { x, y, z }),
    {
        Vec3 { x, y, z }
    }

    /// The origin.
    pub open spec fn zero() -> Vec3 {
        Vec3 { x: 0, y: 0, z: 0 }
    }

    /// The squared distance between two points.
    pub open spec fn dist_sq(self, other: Vec3) -> int {
        norm_sq3(self.x - other.x, self.y - other.y, self.z - other.z)
    }

    /// The squared distance of a point from the origin.
    pub open spec fn length_sq(self) -> int {
        norm_sq3(self.x as int, self.y as int, self.z as int)
    }

    /// The distance between two points, rounded down.
    pub open spec fn dist(self, other: Vec3) -> int {
        floor_sqrt(self.dist_sq(other))
    }

    /// The point moved by `(dx, dy, dz)`, each component saturating.
    pub open spec fn offset(self, dx: int, dy: int, dz: int) -> Vec3 {
        Vec3 {
            x: sat(self.x + dx) as i32,
            y: sat(self.y + dy) as i32,
            z: sat(self.z + dz) as i32,
        }
    }

    /// The point a fraction `t` of the way from `self` to `other`, with `t`
    /// limited to `0..=ONE`.
    pub open spec fn lerp(self, other: Vec3, t: int) -> Vec3 {
        Vec3 {
            x: lerp_component(self.x as int, other.x as int, t) as i32,
            y: lerp_component(self.y as int, other.y as int, t) as i32,
            z: lerp_component(self.z as int, other.z as int, t) as i32,
        }
    }

    /// The direction `(dx, dy, dz)` at length `ONE`; zero for the zero
    /// direction.
    pub open spec fn unit(dx: int, dy: int, dz: int) -> Vec3 {
        match place(Vec3::zero(), dx, dy, dz, ONE as int) {
            Some(v) => v,
            None => Vec3::zero(),
        }
    }

    /// The vector at length `ONE`; zero for the zero vector.
    pub open spec fn normalized(self) -> Vec3 {
        Vec3::unit(self.x as int, self.y as int, self.z as int)
    }

    /// The unit direction from `self` to `other`.
    pub open spec fn direction_to(self, other: Vec3) -> Vec3 {
        Vec3::unit(other.x - self.x, other.y - self.y, other.z - self.z)
    }

    /// The fixed-point cross product.
    pub open spec fn cross(self, other: Vec3) -> Vec3 {
        Vec3 {
            x: fixed_of_wide(self.y * other.z - self.z * other.y) as i32,
            y: fixed_of_wide(self.z * other.x - self.x * other.z) as i32,
            z: fixed_of_wide(self.x * other.y - self.y * other.x) as i32,
        }
    }

    /// The fixed-point dot product.
    pub open spec fn dot(self, other: Vec3) -> int {
        fixed_of_wide(self.x * other.x + self.y * other.y + self.z * other.z)
    }

    /// Computes the squared distance to `other`.
    pub fn distance_sq(&self, other: &Vec3) -> (d: u128)
        ensures
            d == self.dist_sq(*other),
            d <= 3 * 0x1_0000_0000_0000_0000,
    {
        let dx: i64 = self.x as i64 - other.x as i64;
        let dy: i64 = self.y as i64 - other.y as i64;
        let dz: i64 = self.z as i64 - other.z as i64;
        offset_norm_sq(dx, dy, dz)
    }

    /// Computes the squared distance from the origin.
    pub fn magnitude_sq(&self) -> (d: u128)
        ensures
            d == self.length_sq(),
            d <= 3 * 0x1_0000_0000_0000_0000,
    {
        offset_norm_sq(self.x as i64, self.y as i64, self.z as i64)
    }

    /// Computes the distance to `other`, rounded down.
    pub fn distance(&self, other: &Vec3) -> (d: i64)
        ensures
            d == self.dist(*other),
            is_floor_sqrt(self.dist_sq(*other), d as int),
            0 <= d <= 0x2_0000_0000,
    {
        let d2 = self.distance_sq(other);
        let r = isqrt(d2);
        proof {
            lemma_norm_bound(d2 as int, r as int);
        }
        r as i64
    }

    /// Scales the vector to length `ONE`; the zero vector stays zero.
    pub fn normalize(&self) -> (v: Vec3)
        ensures
            v == self.normalized(),
    {
        unit_of(self.x as i64, self.y as i64, self.z as i64)
    }

    /// Computes the unit direction from `self` to `other`.
    pub fn unit_toward(&self, other: &Vec3) -> (v: Vec3)
        ensures
            v == self.direction_to(*other),
    {
        unit_of(
            other.x as i64 - self.x as i64,
            other.y as i64 - self.y as i64,
            other.z as i64 - self.z as i64,
        )
    }

    /// Computes the fixed-point cross product.
    pub fn cross_product(&self, other: &Vec3) -> (v: Vec3)
        ensures
            v == self.cross(*other),
    {
        Vec3 {
            x: narrow(product(self.y, other.z) - product(self.z, other.y)),
            y: narrow(product(self.z, other.x) - product(self.x, other.z)),
            z: narrow(product(self.x, other.y) - product(self.y, other.x)),
        }
    }

    /// Computes the fixed-point dot product.
    pub fn dot_product(&self, other: &Vec3) -> (d: i32)
        ensures
            d == self.dot(*other),
    {
        narrow(product(self.x, other.x) + product(self.y, other.y) + product(self.z, other.z))
    }

    /// Moves the point by `(dx, dy, dz)`, each component saturating.
    pub fn translate(&self, dx: i32, dy: i32, dz: i32) -> (v: Vec3)
        ensures
            v == self.offset(dx as int, dy as int, dz as int),
    {
        Vec3 {
            x: saturate(self.x as i128 + dx as i128),
            y: saturate(self.y as i128 + dy as i128),
            z: saturate(self.z as i128 + dz as i128),
        }
    }

    /// Interpolates from `self` to `other`.
    pub fn interpolate(&self, other: &Vec3, t: i32) -> (v: Vec3)
        ensures
            v == self.lerp(*other, t as int),
    {
        Vec3 {
            x: interpolate_component(self.x, other.x, t),
            y: interpolate_component(self.y, other.y, t),
            z: interpolate_component(self.z, other.z, t),
        }
    }
}

/// The exact product of two scalars.
pub fn product(a: i32, b: i32) -> (p: i128)
    ensures
        p == a * b,
        -0x4000_0000_0000_0000 <= p <= 0x4000_0000_0000_0000,
{
    assert(-0x4000_0000_0000_0000 <= a * b <= 0x4000_0000_0000_0000) by (nonlinear_arith)
        requires
            -0x8000_0000 <= a <= 0x7fff_ffff,
            -0x8000_0000 <= b <= 0x7fff_ffff,
    ;
    (a as i128) * (b as i128)
}

/// Turns an exact sum of products of scalars back into a scalar.
pub fn narrow(v: i128) -> (r: i32)
    requires
        v > i128::MIN,
    ensures
        r == fixed_of_wide(v as int),
{
    saturate(div_toward_zero(v, ONE as i128))
}

fn unit_of(dx: i64, dy: i64, dz: i64) -> (v: Vec3)
    requires
        -0x1_0000_0000 <= dx <= 0x1_0000_0000,
        -0x1_0000_0000 <= dy <= 0x1_0000_0000,
        -0x1_0000_0000 <= dz <= 0x1_0000_0000,
    ensures
        v == Vec3::unit(dx as int, dy as int, dz as int),
{
    match place_at_distance(Vec3 { x: 0, y: 0, z: 0 }, dx, dy, dz, ONE as i64) {
        Some(v) => v,
        None => Vec3 { x: 0, y: 0, z: 0 },
    }
}

/// The floor square root of a squared offset fits well inside an `i64`.
pub proof fn lemma_norm_bound(n: int, r: int)
    requires
        is_floor_sqrt(n, r),
        n <= 3 * 0x1_0000_0000_0000_0000,
    ensures
        r <= 0x2_0000_0000,
{
    if r > 0x2_0000_0000 {
        assert(r * r > 3 * 0x1_0000_0000_0000_0000) by (nonlinear_arith)
            requires
                r > 0x2_0000_0000,
        ;
    }
}

/// An interpolated component lies between its two ends.
pub proof fn lemma_lerp_between(a: int, b: int, t: int)
    ensures
        a <= b ==> a <= lerp_component(a, b, t) <= b,
        b <= a ==> b <= lerp_component(a, b, t) <= a,
        clamp(t, 0, ONE as int) == 0 ==> lerp_component(a, b, t) == a,
        clamp(t, 0, ONE as int) == ONE ==> lerp_component(a, b, t) == b,
{
    let c = clamp(t, 0, ONE as int);
    let one = ONE as int;
    if c == 0 {
        assert((b - a) * c == 0) by (nonlinear_arith)
            requires
                c == 0,
        ;
    }
    if a <= b {
        let d = b - a;
        assert(0 <= d * c <= d * one) by (nonlinear_arith)
            requires
                0 <= d,
                0 <= c <= one,
        ;
        assert(0 <= (d * c) / one <= d) by (nonlinear_arith)
            requires
                0 <= d * c <= d * one,
                one > 0,
        ;
        if c == one {
            assert((d * one) / one == d) by (nonlinear_arith)
                requires
                    one > 0,
            ;
        }
    } else {
        let d = a - b;
        assert(-((b - a) * c) == d * c) by (nonlinear_arith)
            requires
                d == a - b,
        ;
        assert(0 <= d * c <= d * one) by (nonlinear_arith)
            requires
                0 <= d,
                0 <= c <= one,
        ;
        assert(0 <= (d * c) / one <= d) by (nonlinear_arith)
            requires
                0 <= d * c <= d * one,
                one > 0,
        ;
        if c == one {
            assert((d * one) / one == d) by (nonlinear_arith)
                requires
                    one > 0,
            ;
        }
    }
}

fn interpolate_component(a: i32, b: i32, t: i32) -> (r: i32)
    ensures
        r == lerp_component(a as int, b as int, t as int),
{
    let c: i64 = clamp_to(t as i64, 0, ONE as i64);
    let d: i64 = b as i64 - a as i64;
    assert(-0x1_0000_0000 * 100_000 <= d * c <= 0x1_0000_0000 * 100_000) by (nonlinear_arith)
        requires
            -0x1_0000_0000 <= d <= 0x1_0000_0000,
            0 <= c <= 100_000,
    ;
    let q: i128 = div_toward_zero((d * c) as i128, ONE as i128);
    proof {
        lemma_lerp_between(a as int, b as int, t as int);
    }
    (a as i128 + q) as i32
}

/// Computes the point at distance `len` from `origin` in the direction
/// `(dx, dy, dz)`.
pub fn place_at_distance(origin: Vec3, dx: i64, dy: i64, dz: i64, len: i64) -> (p: Option<Vec3>)
    requires
        -0x1_0000_0000 <= dx <= 0x1_0000_0000,
        -0x1_0000_0000 <= dy <= 0x1_0000_0000,
        -0x1_0000_0000 <= dz <= 0x1_0000_0000,
        0 <= len <= 0x4_0000_0000,
    ensures
        p == place(origin, dx as int, dy as int, dz as int, len as int),
{
    if dx == 0 && dy == 0 && dz == 0 {
        return None;
    }
    let (wx, wy, wz) = stretch(dx, dy, dz, len);
    let x: i128 = origin.x as i128 + wx as i128;
    let y: i128 = origin.y as i128 + wy as i128;
    let z: i128 = origin.z as i128 + wz as i128;
    if fits(x) && fits(y) && fits(z) {
        Some(Vec3 { x: x as i32, y: y as i32, z: z as i32 })
    } else {
        None
    }
}

fn fits(v: i128) -> (b: bool)
    ensures
        b == in_range(v as int),
{
    i32::MIN as i128 <= v && v <= i32::MAX as i128
}

fn absolute(d: i64) -> (a: u128)
    requires
        -0x1_0000_0000 <= d <= 0x1_0000_0000,
    ensures
        a == magnitude(d as int),
        a <= 0x1_0000_0000,
{
    if d < 0 {
        (-d) as u128
    } else {
        d as u128
    }
}

/// Finds the power of two by which an offset is scaled up before its length
/// is taken.
fn spread_of(m: u128) -> (k: u128)
    requires
        0 < m <= 0x1_0000_0000,
    ensures
        k == spread(m as int),
        0x2000_0000_0000_0000 <= m * k < 0x4000_0000_0000_0000,
        1 <= k < 0x4000_0000_0000_0000,
{
    let mut k: u128 = 1;
    let mut scaled: u128 = m;
    while scaled < 0x2000_0000_0000_0000
        invariant
            0 < m <= 0x1_0000_0000,
            1 <= k <= scaled,
            scaled == m * k,
            0 < scaled < 0x4000_0000_0000_0000,
            k * spread(scaled as int) == spread(m as int),
        decreases 0x4000_0000_0000_0000 - scaled,
    {
        proof {
            let rest = spread(2 * scaled);
            assert(spread(scaled as int) == 2 * rest);
            assert(k * (2 * rest) == (2 * k) * rest) by (nonlinear_arith);
            assert(m * (2 * k) == 2 * (m * k)) by (nonlinear_arith);
        }
        scaled = scaled * 2;
        k = k * 2;
    }
    proof {
        assert(spread(scaled as int) == 1);
        assert(k * 1 == k);
    }
    k
}

fn bump(m: u128, d: i64, length_sq: u128, len_sq: u128) -> (b: u128)
    requires
        m <= 0x4_0000_0000,
    ensures
        b == if d != 0 && length_sq < len_sq {
            m + 1
        } else {
            m as int
        },
{
    if d != 0 && length_sq < len_sq {
        m + 1
    } else {
        m
    }
}

fn with_sign(m: u128, d: i64) -> (w: i64)
    requires
        m <= 0x4_0000_0001,
    ensures
        w == signed(m as int, d as int),
{
    if d < 0 {
        -(m as i64)
    } else {
        m as i64
    }
}

fn square_sum(a: u128, b: u128, c: u128) -> (s: u128)
    requires
        a <= 0x4_0000_0001,
        b <= 0x4_0000_0001,
        c <= 0x4_0000_0001,
    ensures
        s == norm_sq3(a as int, b as int, c as int),
{
    proof {
        lemma_small_square(a as int);
        lemma_small_square(b as int);
        lemma_small_square(c as int);
    }
    a * a + b * b + c * c
}

proof fn lemma_small_square(a: int)
    requires
        0 <= a <= 0x4_0000_0001,
    ensures
        0 <= a * a <= 0x4_0000_0001 * 0x4_0000_0001,
{
    assert(0 <= a * a <= 0x4_0000_0001 * 0x4_0000_0001) by (nonlinear_arith)
        requires
            0 <= a <= 0x4_0000_0001,
    ;
}

/// Scales an offset that is not zero up by its spread, and takes the
/// length of the result.
fn scale_up(dx: i64, dy: i64, dz: i64) -> (r: (u128, u128, u128, u128))
    requires
        -0x1_0000_0000 <= dx <= 0x1_0000_0000,
        -0x1_0000_0000 <= dy <= 0x1_0000_0000,
        -0x1_0000_0000 <= dz <= 0x1_0000_0000,
        dx != 0 || dy != 0 || dz != 0,
    ensures
        r.0 == magnitude(dx as int) * spread(largest(dx as int, dy as int, dz as int)),
        r.1 == magnitude(dy as int) * spread(largest(dx as int, dy as int, dz as int)),
        r.2 == magnitude(dz as int) * spread(largest(dx as int, dy as int, dz as int)),
        r.3 == floor_sqrt(norm_sq3(r.0 as int, r.1 as int, r.2 as int)),
        r.0 <= r.3 && r.1 <= r.3 && r.2 <= r.3,
        0 < r.3,
        r.0 < 0x4000_0000_0000_0000 && r.1 < 0x4000_0000_0000_0000 && r.2
            < 0x4000_0000_0000_0000,
{
    let (px, py, pz) = (absolute(dx), absolute(dy), absolute(dz));
    let m: u128 = if px >= py && px >= pz {
        px
    } else if py >= pz {
        py
    } else {
        pz
    };
    let k: u128 = spread_of(m);
    proof {
        lemma_scaled_component(px as int, m as int, k as int);
        lemma_scaled_component(py as int, m as int, k as int);
        lemma_scaled_component(pz as int, m as int, k as int);
    }
    let (ax, ay, az) = (px * k, py * k, pz * k);
    proof {
        lemma_wide_square(ax as int);
        lemma_wide_square(ay as int);
        lemma_wide_square(az as int);
    }
    let n: u128 = isqrt(ax * ax + ay * ay + az * az) as u128;
    proof {
        lemma_norm_reaches(ax as int, ay as int, az as int, m as int * k as int, n as int);
    }
    (ax, ay, az, n)
}

/// Scales one component of an offset of length `n` to the length `len`,
/// rounding down.
fn quotient(a: u128, len: u128, n: u128) -> (q: u128)
    requires
        a <= n,
        0 < n,
        a < 0x4000_0000_0000_0000,
        len <= 0x4_0000_0000,
    ensures
        q == (a * len) / (n as int),
        q <= len,
{
    proof {
        lemma_quotient_small(a as int, len as int, n as int);
    }
    (a * len) / n
}

/// Stretches or shrinks an offset that is not zero to length `len`.
fn stretch(dx: i64, dy: i64, dz: i64, len: i64) -> (w: (i64, i64, i64))
    requires
        -0x1_0000_0000 <= dx <= 0x1_0000_0000,
        -0x1_0000_0000 <= dy <= 0x1_0000_0000,
        -0x1_0000_0000 <= dz <= 0x1_0000_0000,
        dx != 0 || dy != 0 || dz != 0,
        0 <= len <= 0x4_0000_0000,
    ensures
        (w.0 as int, w.1 as int, w.2 as int) == stretched(
            dx as int,
            dy as int,
            dz as int,
            len as int,
        ),
{
    let (ax, ay, az, n) = scale_up(dx, dy, dz);
    let l: u128 = len as u128;
    let (mx, my, mz) = (quotient(ax, l, n), quotient(ay, l, n), quotient(az, l, n));
    proof {
        lemma_small_square(l as int);
    }
    let len_sq: u128 = l * l;
    let bx: u128 = bump(mx, dx, square_sum(mx, my, mz), len_sq);
    let by: u128 = bump(my, dy, square_sum(bx, my, mz), len_sq);
    let bz: u128 = bump(mz, dz, square_sum(bx, by, mz), len_sq);
    (with_sign(bx, dx), with_sign(by, dy), with_sign(bz, dz))
}

/// A component scaled by the spread stays below `2^62`.
proof fn lemma_scaled_component(a: int, m: int, k: int)
    requires
        0 <= a <= m,
        1 <= k,
        m * k < 0x4000_0000_0000_0000,
    ensures
        0 <= a * k <= m * k < 0x4000_0000_0000_0000,
{
    assert(0 <= a * k <= m * k) by (nonlinear_arith)
        requires
            0 <= a <= m,
            1 <= k,
    ;
}

proof fn lemma_wide_square(a: int)
    requires
        0 <= a < 0x4000_0000_0000_0000,
    ensures
        0 <= a * a < 0x1000_0000_0000_0000_0000_0000_0000_0000,
{
    assert(0 <= a * a < 0x1000_0000_0000_0000_0000_0000_0000_0000) by (nonlinear_arith)
        requires
            0 <= a < 0x4000_0000_0000_0000,
    ;
}

/// The length of an offset is at least its largest component.
proof fn lemma_norm_reaches(ax: int, ay: int, az: int, top: int, n: int)
    requires
        0 <= ax <= top,
        0 <= ay <= top,
        0 <= az <= top,
        ax == top || ay == top || az == top,
        is_floor_sqrt(norm_sq3(ax, ay, az), n),
    ensures
        top <= n,
{
    assert(ax * ax >= 0 && ay * ay >= 0 && az * az >= 0) by (nonlinear_arith);
    if n < top {
        lemma_square_monotone(n + 1, top);
    }
}

/// A component of an offset, scaled to a length and divided by the length
/// of the offset, is no longer than the length it was scaled to.
proof fn lemma_quotient_small(a: int, len: int, n: int)
    requires
        0 <= a <= n,
        0 < n,
        a < 0x4000_0000_0000_0000,
        0 <= len <= 0x4_0000_0000,
    ensures
        0 <= a * len <= 0x4000_0000_0000_0000 * 0x4_0000_0000,
        0 <= (a * len) / n <= len,
{
    assert(0 <= a * len <= n * len && a * len <= 0x4000_0000_0000_0000 * 0x4_0000_0000)
        by (nonlinear_arith)
        requires
            0 <= a <= n,
            a < 0x4000_0000_0000_0000,
            0 <= len <= 0x4_0000_0000,
    ;
    assert(0 <= (a * len) / n <= len) by (nonlinear_arith)
        requires
            0 <= a * len <= n * len,
            0 < n,
    ;
}

/// Squaring is strictly monotone on the non-negative integers.
pub proof fn lemma_square_strictly_monotone(a: int, b: int)
    requires
        0 <= a < b,
    ensures
        a * a < b * b,
{
    assert(a * a < b * b) by (nonlinear_arith)
        requires
            0 <= a < b,
    ;
}

/// The spread brings the largest magnitude to `2^61` or more.
pub proof fn lemma_spread_reaches(m: int)
    requires
        0 < m,
    ensures
        spread(m) >= 1,
        m * spread(m) >= 0x2000_0000_0000_0000,
    decreases
        (if m < 0x2000_0000_0000_0000 {
            0x2000_0000_0000_0000 - m
        } else {
            0
        }),
{
    if m < 0x2000_0000_0000_0000 {
        lemma_spread_reaches(2 * m);
        let rest = spread(2 * m);
        assert(m * (2 * rest) == (2 * m) * rest) by (nonlinear_arith);
    } else {
        assert(m * 1 == m);
    }
}

/// If `m * n <= a * len` for non-negative integers, the same holds of the
/// squares; likewise for `<`.
proof fn lemma_scaled_squares(m: int, n: int, a: int, len: int)
    requires
        0 <= m,
        0 < n,
        0 <= a,
        0 <= len,
        m * n <= a * len,
        a * len < (m + 1) * n,
    ensures
        (m * m) * (n * n) <= (len * len) * (a * a),
        (len * len) * (a * a) < ((m + 1) * (m + 1)) * (n * n),
{
    let x = m * n;
    let y = a * len;
    let z = (m + 1) * n;
    assert(0 <= x) by (nonlinear_arith)
        requires
            x == m * n,
            0 <= m,
            0 < n,
    ;
    lemma_square_monotone(x, y);
    lemma_square_strictly_monotone(y, z);
    assert(x * x == (m * m) * (n * n)) by (nonlinear_arith)
        requires
            x == m * n,
    ;
    assert(y * y == (len * len) * (a * a)) by (nonlinear_arith)
        requires
            y == a * len,
    ;
    assert(z * z == ((m + 1) * (m + 1)) * (n * n)) by (nonlinear_arith)
        requires
            z == (m + 1) * n,
    ;
}

/// What a non-zero component adds to the squared length once it has been
/// bumped; a zero component adds nothing.
pub open spec fn grown(a: int, m: int) -> int {
    if a > 0 {
        (m + 1) * (m + 1)
    } else {
        0
    }
}

/// The components of an offset of length `n`, scaled to a length `len`
/// below `n` and rounded down: together they are shorter than `len + 1`,
/// and with every non-zero one bumped they are at least as long as `len`.
proof fn lemma_quotients(ax: int, ay: int, az: int, len: int, n: int)
    requires
        0 <= ax,
        0 <= ay,
        0 <= az,
        0 <= len < n,
        is_floor_sqrt(norm_sq3(ax, ay, az), n),
    ensures
        ({
            let (mx, my, mz) = ((ax * len) / n, (ay * len) / n, (az * len) / n);
            &&& 0 <= mx && 0 <= my && 0 <= mz
            &&& mx * n <= ax * len < (mx + 1) * n
            &&& my * n <= ay * len < (my + 1) * n
            &&& mz * n <= az * len < (mz + 1) * n
            &&& norm_sq3(mx, my, mz) < (len + 1) * (len + 1)
            &&& grown(ax, mx) + grown(ay, my) + grown(az, mz) >= len * len
        }),
{
    let (mx, my, mz) = ((ax * len) / n, (ay * len) / n, (az * len) / n);
    lemma_floor_quotient(ax, len, n);
    lemma_floor_quotient(ay, len, n);
    lemma_floor_quotient(az, len, n);
    lemma_scaled_squares(mx, n, ax, len);
    lemma_scaled_squares(my, n, ay, len);
    lemma_scaled_squares(mz, n, az, len);
    let big = norm_sq3(ax, ay, az);
    let w = norm_sq3(mx, my, mz);
    let nn = n * n;
    let ll = len * len;
    assert(nn > 0 && ll >= 0) by (nonlinear_arith)
        requires
            nn == n * n,
            ll == len * len,
            n > 0,
    ;
    // Not longer than `len + 1`.
    assert(w * nn <= ll * big) by (nonlinear_arith)
        requires
            w == mx * mx + my * my + mz * mz,
            big == ax * ax + ay * ay + az * az,
            (mx * mx) * nn <= ll * (ax * ax),
            (my * my) * nn <= ll * (ay * ay),
            (mz * mz) * nn <= ll * (az * az),
    ;
    let top = len * (n + 1);
    let over = (len + 1) * n;
    assert(ll * big <= top * top) by (nonlinear_arith)
        requires
            big < (n + 1) * (n + 1),
            ll == len * len,
            ll >= 0,
            top == len * (n + 1),
    ;
    assert(0 <= top < over) by (nonlinear_arith)
        requires
            top == len * (n + 1),
            over == (len + 1) * n,
            0 <= len < n,
    ;
    lemma_square_strictly_monotone(top, over);
    assert(over * over == ((len + 1) * (len + 1)) * nn) by (nonlinear_arith)
        requires
            over == (len + 1) * n,
            nn == n * n,
    ;
    assert(w < (len + 1) * (len + 1)) by (nonlinear_arith)
        requires
            w * nn < ((len + 1) * (len + 1)) * nn,
            nn > 0,
    ;
    // With the bumps, at least as long as `len`.
    let (gx, gy, gz) = (grown(ax, mx), grown(ay, my), grown(az, mz));
    lemma_grown_covers(ax, mx, nn, ll);
    lemma_grown_covers(ay, my, nn, ll);
    lemma_grown_covers(az, mz, nn, ll);
    assert(ll * big <= (gx + gy + gz) * nn) by (nonlinear_arith)
        requires
            big == ax * ax + ay * ay + az * az,
            ll * (ax * ax) <= gx * nn,
            ll * (ay * ay) <= gy * nn,
            ll * (az * az) <= gz * nn,
    ;
    assert(ll * nn <= ll * big) by (nonlinear_arith)
        requires
            nn <= big,
            ll >= 0,
    ;
    assert(ll <= gx + gy + gz) by (nonlinear_arith)
        requires
            ll * nn <= (gx + gy + gz) * nn,
            nn > 0,
    ;
}

proof fn lemma_floor_quotient(a: int, len: int, n: int)
    requires
        0 <= a,
        0 <= len,
        0 < n,
    ensures
        0 <= (a * len) / n,
        ((a * len) / n) * n <= a * len < ((a * len) / n + 1) * n,
        a == 0 ==> (a * len) / n == 0,
{
    let t = a * len;
    assert(t >= 0 && (a == 0 ==> t == 0)) by (nonlinear_arith)
        requires
            t == a * len,
            a >= 0,
            len >= 0,
    ;
    assert((t / n) * n <= t && t < (t / n + 1) * n && t / n >= 0) by (nonlinear_arith)
        requires
            t >= 0,
            n > 0,
    ;
}

proof fn lemma_grown_covers(a: int, m: int, nn: int, ll: int)
    requires
        0 <= a,
        a == 0 ==> m == 0,
        (ll) * (a * a) < ((m + 1) * (m + 1)) * nn,
    ensures
        ll * (a * a) <= grown(a, m) * nn,
{
    if a == 0 {
        assert(ll * (a * a) == 0) by (nonlinear_arith)
            requires
                a == 0,
        ;
        assert(grown(a, m) * nn == 0) by (nonlinear_arith)
            requires
                grown(a, m) == 0,
        ;
    }
}

/// Bumping the components in turn, for as long as the offset is shorter
/// than `len`, ends with an offset whose length, rounded down, is `len`.
proof fn lemma_bumps_reach(mx: int, my: int, mz: int, dx: int, dy: int, dz: int, len: int)
    requires
        0 <= mx,
        0 <= my,
        0 <= mz,
        0 <= len,
        dx == 0 ==> mx == 0,
        dy == 0 ==> my == 0,
        dz == 0 ==> mz == 0,
        norm_sq3(mx, my, mz) < (len + 1) * (len + 1),
        grown(magnitude(dx), mx) + grown(magnitude(dy), my) + grown(magnitude(dz), mz) >= len
            * len,
    ensures
        ({
            let bx = bumped(mx, dx, norm_sq3(mx, my, mz), len);
            let by = bumped(my, dy, norm_sq3(bx, my, mz), len);
            let bz = bumped(mz, dz, norm_sq3(bx, by, mz), len);
            &&& mx <= bx <= mx + 1 && my <= by <= my + 1 && mz <= bz <= mz + 1
            &&& len * len <= norm_sq3(bx, by, bz) < (len + 1) * (len + 1)
        }),
{
    let ll = len * len;
    let bx = bumped(mx, dx, norm_sq3(mx, my, mz), len);
    let by = bumped(my, dy, norm_sq3(bx, my, mz), len);
    let bz = bumped(mz, dz, norm_sq3(bx, by, mz), len);
    assert((len + 1) * (len + 1) == ll + 2 * len + 1) by (nonlinear_arith)
        requires
            ll == len * len,
    ;
    assert(mx * mx >= 0 && my * my >= 0 && mz * mz >= 0) by (nonlinear_arith);
    lemma_bump_step(mx, bx, my * my + mz * mz, len);
    assert(by * by >= 0 && bx * bx >= 0) by (nonlinear_arith);
    lemma_bump_step(my, by, bx * bx + mz * mz, len);
    lemma_bump_step(mz, bz, bx * bx + by * by, len);
    assert((mx + 1) * (mx + 1) == mx * mx + 2 * mx + 1) by (nonlinear_arith);
    assert((my + 1) * (my + 1) == my * my + 2 * my + 1) by (nonlinear_arith);
    assert((mz + 1) * (mz + 1) == mz * mz + 2 * mz + 1) by (nonlinear_arith);
}

/// One bump: if the offset was shorter than `len + 1`, it still is; and if
/// the bump was made, the component grew by one unit.
proof fn lemma_bump_step(m: int, b: int, others: int, len: int)
    requires
        0 <= m,
        0 <= others,
        0 <= len,
        b == m || (b == m + 1 && m * m + others < len * len),
        m * m + others < len * len + 2 * len + 1,
    ensures
        b * b + others < len * len + 2 * len + 1,
{
    if b == m + 1 {
        assert(m < len) by (nonlinear_arith)
            requires
                m * m + others < len * len,
                0 <= others,
                0 <= m,
                0 <= len,
        ;
        assert(b * b == m * m + 2 * m + 1) by (nonlinear_arith)
            requires
                b == m + 1,
        ;
    }
}

/// Stretching an offset that is not zero to a length `len` yields an
/// offset whose length, rounded down, is exactly `len`; each component
/// keeps its sign, and a zero component stays zero.
pub proof fn law_stretched_length(dx: int, dy: int, dz: int, len: int)
    requires
        dx != 0 || dy != 0 || dz != 0,
        0 <= len < 0x2000_0000_0000_0000,
    ensures
        ({
            let (wx, wy, wz) = stretched(dx, dy, dz, len);
            &&& floor_sqrt(norm_sq3(wx, wy, wz)) == len
            &&& (dx == 0 ==> wx == 0) && (dx > 0 ==> wx >= 0) && (dx < 0 ==> wx <= 0)
            &&& (dy == 0 ==> wy == 0) && (dy > 0 ==> wy >= 0) && (dy < 0 ==> wy <= 0)
            &&& (dz == 0 ==> wz == 0) && (dz > 0 ==> wz >= 0) && (dz < 0 ==> wz <= 0)
        }),
{
    let m = largest(dx, dy, dz);
    let k = spread(m);
    lemma_spread_reaches(m);
    let (ax, ay, az) = (magnitude(dx) * k, magnitude(dy) * k, magnitude(dz) * k);
    assert(0 <= ax <= m * k && 0 <= ay <= m * k && 0 <= az <= m * k) by (nonlinear_arith)
        requires
            ax == magnitude(dx) * k,
            ay == magnitude(dy) * k,
            az == magnitude(dz) * k,
            0 <= magnitude(dx) <= m,
            0 <= magnitude(dy) <= m,
            0 <= magnitude(dz) <= m,
            k >= 1,
    ;
    assert((dx == 0 ==> ax == 0) && (dy == 0 ==> ay == 0) && (dz == 0 ==> az == 0))
        by (nonlinear_arith)
        requires
            ax == magnitude(dx) * k,
            ay == magnitude(dy) * k,
            az == magnitude(dz) * k,
    ;
    assert((dx != 0 ==> ax > 0) && (dy != 0 ==> ay > 0) && (dz != 0 ==> az > 0))
        by (nonlinear_arith)
        requires
            ax == magnitude(dx) * k,
            ay == magnitude(dy) * k,
            az == magnitude(dz) * k,
            k >= 1,
    ;
    assert(ax * ax + ay * ay + az * az >= 0) by (nonlinear_arith);
    lemma_floor_sqrt_exists(norm_sq3(ax, ay, az));
    let n = floor_sqrt(norm_sq3(ax, ay, az));
    lemma_norm_reaches(ax, ay, az, m * k, n);
    lemma_quotients(ax, ay, az, len, n);
    let (mx, my, mz) = ((ax * len) / n, (ay * len) / n, (az * len) / n);
    lemma_floor_quotient(ax, len, n);
    lemma_floor_quotient(ay, len, n);
    lemma_floor_quotient(az, len, n);
    assert(grown(magnitude(dx), mx) == grown(ax, mx));
    assert(grown(magnitude(dy), my) == grown(ay, my));
    assert(grown(magnitude(dz), mz) == grown(az, mz));
    lemma_bumps_reach(mx, my, mz, dx, dy, dz, len);
    let bx = bumped(mx, dx, norm_sq3(mx, my, mz), len);
    let by = bumped(my, dy, norm_sq3(bx, my, mz), len);
    let bz = bumped(mz, dz, norm_sq3(bx, by, mz), len);
    let (wx, wy, wz) = (signed(bx, dx), signed(by, dy), signed(bz, dz));
    assert(wx * wx == bx * bx && wy * wy == by * by && wz * wz == bz * bz) by (nonlinear_arith)
        requires
            wx == bx || wx == -bx,
            wy == by || wy == -by,
            wz == bz || wz == -bz,
    ;
    lemma_floor_sqrt_unique(norm_sq3(wx, wy, wz), len);
}

/// Stretching keeps the direction: each component of the result is within
/// one unit of the component of the offset scaled by `len / |d|`, where
/// `|d|` is the length of the offset, known to one part in `2^61`.
pub proof fn law_stretched_direction(dx: int, dy: int, dz: int, len: int)
    requires
        dx != 0 || dy != 0 || dz != 0,
        0 <= len < 0x2000_0000_0000_0000,
    ensures
        ({
            let k = spread(largest(dx, dy, dz));
            let n = floor_sqrt(
                norm_sq3(magnitude(dx) * k, magnitude(dy) * k, magnitude(dz) * k),
            );
            let (wx, wy, wz) = stretched(dx, dy, dz, len);
            &&& n >= 0x2000_0000_0000_0000
            &&& (magnitude(wx) - 1) * n <= magnitude(dx) * k * len < (magnitude(wx) + 1) * n
            &&& (magnitude(wy) - 1) * n <= magnitude(dy) * k * len < (magnitude(wy) + 1) * n
            &&& (magnitude(wz) - 1) * n <= magnitude(dz) * k * len < (magnitude(wz) + 1) * n
        }),
{
    let m = largest(dx, dy, dz);
    let k = spread(m);
    lemma_spread_reaches(m);
    let (ax, ay, az) = (magnitude(dx) * k, magnitude(dy) * k, magnitude(dz) * k);
    assert(0 <= ax <= m * k && 0 <= ay <= m * k && 0 <= az <= m * k) by (nonlinear_arith)
        requires
            ax == magnitude(dx) * k,
            ay == magnitude(dy) * k,
            az == magnitude(dz) * k,
            0 <= magnitude(dx) <= m,
            0 <= magnitude(dy) <= m,
            0 <= magnitude(dz) <= m,
            k >= 1,
    ;
    assert(ax * ax + ay * ay + az * az >= 0) by (nonlinear_arith);
    lemma_floor_sqrt_exists(norm_sq3(ax, ay, az));
    let n = floor_sqrt(norm_sq3(ax, ay, az));
    lemma_norm_reaches(ax, ay, az, m * k, n);
    lemma_quotients(ax, ay, az, len, n);
    let (mx, my, mz) = ((ax * len) / n, (ay * len) / n, (az * len) / n);
    let bx = bumped(mx, dx, norm_sq3(mx, my, mz), len);
    let by = bumped(my, dy, norm_sq3(bx, my, mz), len);
    let bz = bumped(mz, dz, norm_sq3(bx, by, mz), len);
    lemma_within_one(mx, bx, n, ax * len);
    lemma_within_one(my, by, n, ay * len);
    lemma_within_one(mz, bz, n, az * len);
    assert(magnitude(signed(bx, dx)) == bx);
    assert(magnitude(signed(by, dy)) == by);
    assert(magnitude(signed(bz, dz)) == bz);
}

proof fn lemma_within_one(m: int, b: int, n: int, t: int)
    requires
        0 <= m,
        m <= b <= m + 1,
        0 < n,
        m * n <= t < (m + 1) * n,
    ensures
        (b - 1) * n <= t < (b + 1) * n,
{
    assert((m - 1) * n <= m * n && (m + 1) * n <= (m + 2) * n) by (nonlinear_arith)
        requires
            0 < n,
    ;
}

/// Computes the squared length of an offset between two points.
pub fn offset_norm_sq(dx: i64, dy: i64, dz: i64) -> (d: u128)
    requires
        -0x1_0000_0000 <= dx <= 0x1_0000_0000,
        -0x1_0000_0000 <= dy <= 0x1_0000_0000,
        -0x1_0000_0000 <= dz <= 0x1_0000_0000,
    ensures
        d == norm_sq3(dx as int, dy as int, dz as int),
        d <= 3 * 0x1_0000_0000_0000_0000,
{
    proof {
        lemma_square_bound(dx as int);
        lemma_square_bound(dy as int);
        lemma_square_bound(dz as int);
    }
    let x: i128 = dx as i128;
    let y: i128 = dy as i128;
    let z: i128 = dz as i128;
    (x * x + y * y + z * z) as u128
}

/// The square of the difference of two components fits 65 bits.
pub proof fn lemma_square_bound(d: int)
    requires
        -0x1_0000_0000 <= d <= 0x1_0000_0000,
    ensures
        0 <= d * d <= 0x1_0000_0000_0000_0000,
{
    assert(0 <= d * d <= 0x1_0000_0000_0000_0000) by (nonlinear_arith)
        requires
            -0x1_0000_0000 <= d <= 0x1_0000_0000,
    ;
}

} // verus!
