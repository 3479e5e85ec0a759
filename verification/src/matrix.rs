//! Fixed-point matrices for the transform pipeline.
//!
//! A matrix is stored by rows and applied to column vectors. Each entry of
//! a product is one exact sum of products, turned back into a scalar once.

use vstd::prelude::*;
use crate::fixed::{div_toward_zero, sat, saturate, trunc_div, ONE};
use crate::vec3::{fixed_of_wide, narrow, product, Vec3};

verus! {

/// A point or direction in homogeneous coordinates.
#[derive(Clone, Copy, Debug, PartialEq, Eq, Structural)]
pub struct Vec4 {
    pub x: i32,
    pub y: i32,
    pub z: i32,
    pub w: i32,
}

/// A matrix of three rows and three columns.
#[derive(Clone, Copy, Debug, PartialEq, Eq, Structural)]
pub struct Mat3 {
    pub r0: Vec3,
    pub r1: Vec3,
    pub r2: Vec3,
}

/// A matrix of four rows and four columns.
#[derive(Clone, Copy, Debug, PartialEq, Eq, Structural)]
pub struct Mat4 {
    pub r0: Vec4,
    pub r1: Vec4,
    pub r2: Vec4,
    pub r3: Vec4,
}

/// The sine and cosine of an angle.
#[derive(Clone, Copy, Debug, PartialEq, Eq, Structural)]
pub struct SinCos {
    pub sin: i32,
    pub cos: i32,
}

/// The sines and cosines of the three angles of a rotation about the axes.
#[derive(Clone, Copy, Debug, PartialEq, Eq, Structural)]
pub struct Rotation {
    pub x: SinCos,
    pub y: SinCos,
    pub z: SinCos,
}

/// The determinant of the matrix with the given rows, without rounding; it
/// counts units of `ONE` cubed.
pub open spec fn det3(a: Vec3, b: Vec3, c: Vec3) -> int {
    a.x * (b.y * c.z - b.z * c.y) - a.y * (b.x * c.z - b.z * c.x) + a.z * (b.x * c.y - b.y * c.x)
}

/// What `-a` is as a scalar.
pub open spec fn negated(a: int) -> int {
    sat(-a)
}

impl Vec4 {
    /// The vector with the given coordinates.
    pub fn new(x: i32, y: i32, z: i32, w: i32) -> (v: Vec4)
        ensures
            v == (Vec4 { x, y, z, w }),
    {
        Vec4 { x, y, z, w }
    }

    /// The point `p` in homogeneous coordinates.
    pub open spec fn of_point(p: Vec3) -> Vec4 {
        Vec4 { x: p.x, y: p.y, z: p.z, w: ONE }
    }

    /// The first three coordinates.
    pub open spec fn xyz(self) -> Vec3 {
        Vec3 { x: self.x, y: self.y, z: self.z }
    }

    /// The fixed-point dot product.
    pub open spec fn dot(self, other: Vec4) -> int {
        fixed_of_wide(self.x * other.x + self.y * other.y + self.z * other.z + self.w * other.w)
    }

    /// Computes the fixed-point dot product.
    pub fn dot_product(&self, other: &Vec4) -> (d: i32)
        ensures
            d == self.dot(*other),
    {
        narrow(
            product(self.x, other.x) + product(self.y, other.y) + product(self.z, other.z)
                + product(self.w, other.w),
        )
    }
}

impl Mat3 {
    /// The identity matrix.
    pub open spec fn unit() -> Mat3 {
        Mat3 {
            r0: Vec3 { x: ONE, y: 0, z: 0 },
            r1: Vec3 { x: 0, y: ONE, z: 0 },
            r2: Vec3 { x: 0, y: 0, z: ONE },
        }
    }

    /// The matrix applied to `v`.
    pub open spec fn apply(self, v: Vec3) -> Vec3 {
        Vec3 { x: self.r0.dot(v) as i32, y: self.r1.dot(v) as i32, z: self.r2.dot(v) as i32 }
    }

    /// The determinant, without rounding.
    pub open spec fn det(self) -> int {
        det3(self.r0, self.r1, self.r2)
    }

    /// The matrix of cofactors, without rounding and row by row; an entry
    /// counts units of `ONE` squared.
    pub open spec fn cofactors(self) -> ((int, int, int), (int, int, int), (int, int, int)) {
        let (a, b, c) = (self.r0, self.r1, self.r2);
        (
            (b.y * c.z - b.z * c.y, b.z * c.x - b.x * c.z, b.x * c.y - b.y * c.x),
            (a.z * c.y - a.y * c.z, a.x * c.z - a.z * c.x, a.y * c.x - a.x * c.y),
            (a.y * b.z - a.z * b.y, a.z * b.x - a.x * b.z, a.x * b.y - a.y * b.x),
        )
    }

    /// One coordinate of the inverse transpose applied to `v`: the row of
    /// cofactors times `v`, divided by the determinant.
    pub open spec fn cofactor_row_apply(row: (int, int, int), v: Vec3, det: int) -> int {
        sat(trunc_div((row.0 * v.x + row.1 * v.y + row.2 * v.z) * ONE, det))
    }

    /// The inverse of the transpose of the matrix, applied to `v`; `v`
    /// itself when the matrix has no inverse.
    pub open spec fn inverse_transpose_apply(self, v: Vec3) -> Vec3 {
        let det = self.det();
        let (c0, c1, c2) = self.cofactors();
        if det == 0 {
            v
        } else {
            Vec3 {
                x: Mat3::cofactor_row_apply(c0, v, det) as i32,
                y: Mat3::cofactor_row_apply(c1, v, det) as i32,
                z: Mat3::cofactor_row_apply(c2, v, det) as i32,
            }
        }
    }

    /// The identity matrix.
    pub fn identity() -> (m: Mat3)
        ensures
            m == Mat3::unit(),
    {
        Mat3 {
            r0: Vec3 { x: ONE, y: 0, z: 0 },
            r1: Vec3 { x: 0, y: ONE, z: 0 },
            r2: Vec3 { x: 0, y: 0, z: ONE },
        }
    }

    /// Applies the matrix to `v`.
    pub fn transform(&self, v: &Vec3) -> (r: Vec3)
        ensures
            r == self.apply(*v),
    {
        Vec3 { x: self.r0.dot_product(v), y: self.r1.dot_product(v), z: self.r2.dot_product(v) }
    }

    /// Computes the determinant, without rounding.
    pub fn determinant(&self) -> (d: i128)
        ensures
            d == self.det(),
            -0x3_0000_0000_0000_0000_0000_0000 <= d <= 0x3_0000_0000_0000_0000_0000_0000,
    {
        let a = self.r0;
        let b = self.r1;
        let c = self.r2;
        let m0: i128 = minor(b.y, c.z, b.z, c.y);
        let m1: i128 = minor(b.x, c.z, b.z, c.x);
        let m2: i128 = minor(b.x, c.y, b.y, c.x);
        scaled(a.x, m0) - scaled(a.y, m1) + scaled(a.z, m2)
    }

    /// Applies the inverse of the transpose of the matrix to `v`, as a
    /// normal must be transformed when the matrix transforms positions. A
    /// matrix without an inverse leaves `v` as it is.
    pub fn transform_normal(&self, v: &Vec3) -> (r: Vec3)
        ensures
            r == self.inverse_transpose_apply(*v),
    {
        let det: i128 = self.determinant();
        if det == 0 {
            return *v;
        }
        let a = self.r0;
        let b = self.r1;
        let c = self.r2;
        Vec3 {
            x: cofactor_row(
                minor(b.y, c.z, b.z, c.y),
                minor(b.z, c.x, b.x, c.z),
                minor(b.x, c.y, b.y, c.x),
                v,
                det,
            ),
            y: cofactor_row(
                minor(a.z, c.y, a.y, c.z),
                minor(a.x, c.z, a.z, c.x),
                minor(a.y, c.x, a.x, c.y),
                v,
                det,
            ),
            z: cofactor_row(
                minor(a.y, b.z, a.z, b.y),
                minor(a.z, b.x, a.x, b.z),
                minor(a.x, b.y, a.y, b.x),
                v,
                det,
            ),
        }
    }
}

/// The exact value of `p * q - r * s`.
fn minor(p: i32, q: i32, r: i32, s: i32) -> (m: i128)
    ensures
        m == p * q - r * s,
        -0x8000_0000_0000_0000 <= m <= 0x8000_0000_0000_0000,
{
    product(p, q) - product(r, s)
}

/// The exact value of `a * m`.
fn scaled(a: i32, m: i128) -> (r: i128)
    requires
        -0x8000_0000_0000_0000 <= m <= 0x8000_0000_0000_0000,
    ensures
        r == a * m,
        -0x1_0000_0000_0000_0000_0000_0000 <= r <= 0x1_0000_0000_0000_0000_0000_0000,
{
    assert(-0x1_0000_0000_0000_0000_0000_0000 <= a * m <= 0x1_0000_0000_0000_0000_0000_0000)
        by (nonlinear_arith)
        requires
            -0x8000_0000 <= a <= 0x8000_0000,
            -0x8000_0000_0000_0000 <= m <= 0x8000_0000_0000_0000,
    ;
    (a as i128) * m
}

fn cofactor_row(c0: i128, c1: i128, c2: i128, v: &Vec3, det: i128) -> (r: i32)
    requires
        det != 0,
        det > i128::MIN,
        -0x8000_0000_0000_0000 <= c0 <= 0x8000_0000_0000_0000,
        -0x8000_0000_0000_0000 <= c1 <= 0x8000_0000_0000_0000,
        -0x8000_0000_0000_0000 <= c2 <= 0x8000_0000_0000_0000,
    ensures
        r == Mat3::cofactor_row_apply((c0 as int, c1 as int, c2 as int), *v, det as int),
{
    let sum: i128 = scaled(v.x, c0) + scaled(v.y, c1) + scaled(v.z, c2);
    assert(c0 * v.x == v.x * c0 && c1 * v.y == v.y * c1 && c2 * v.z == v.z * c2)
        by (nonlinear_arith);
    saturate(div_toward_zero(sum * 100_000, det))
}

impl Mat4 {
    /// The identity matrix.
    pub open spec fn unit() -> Mat4 {
        Mat4 {
            r0: Vec4 { x: ONE, y: 0, z: 0, w: 0 },
            r1: Vec4 { x: 0, y: ONE, z: 0, w: 0 },
            r2: Vec4 { x: 0, y: 0, z: ONE, w: 0 },
            r3: Vec4 { x: 0, y: 0, z: 0, w: ONE },
        }
    }

    /// The four columns, first to last.
    pub open spec fn columns(self) -> (Vec4, Vec4, Vec4, Vec4) {
        (
            Vec4 { x: self.r0.x, y: self.r1.x, z: self.r2.x, w: self.r3.x },
            Vec4 { x: self.r0.y, y: self.r1.y, z: self.r2.y, w: self.r3.y },
            Vec4 { x: self.r0.z, y: self.r1.z, z: self.r2.z, w: self.r3.z },
            Vec4 { x: self.r0.w, y: self.r1.w, z: self.r2.w, w: self.r3.w },
        )
    }

    /// The matrix applied to `v`.
    pub open spec fn apply(self, v: Vec4) -> Vec4 {
        Vec4 {
            x: self.r0.dot(v) as i32,
            y: self.r1.dot(v) as i32,
            z: self.r2.dot(v) as i32,
            w: self.r3.dot(v) as i32,
        }
    }

    /// One row of a product: `row` times the matrix.
    pub open spec fn row_times(self, row: Vec4) -> Vec4 {
        let (c0, c1, c2, c3) = self.columns();
        Vec4 { x: row.dot(c0) as i32, y: row.dot(c1) as i32, z: row.dot(c2) as i32, w: row.dot(
            c3,
        ) as i32 }
    }

    /// The product `self * other`.
    pub open spec fn times(self, other: Mat4) -> Mat4 {
        Mat4 {
            r0: other.row_times(self.r0),
            r1: other.row_times(self.r1),
            r2: other.row_times(self.r2),
            r3: other.row_times(self.r3),
        }
    }

    /// The upper left three rows and columns.
    pub open spec fn linear_part(self) -> Mat3 {
        Mat3 { r0: self.r0.xyz(), r1: self.r1.xyz(), r2: self.r2.xyz() }
    }

    /// The matrix that moves a point by `t`.
    pub open spec fn translation(t: Vec3) -> Mat4 {
        Mat4 {
            r0: Vec4 { x: ONE, y: 0, z: 0, w: t.x },
            r1: Vec4 { x: 0, y: ONE, z: 0, w: t.y },
            r2: Vec4 { x: 0, y: 0, z: ONE, w: t.z },
            r3: Vec4 { x: 0, y: 0, z: 0, w: ONE },
        }
    }

    /// The matrix that scales every axis by `s`.
    pub open spec fn scaling(s: i32) -> Mat4 {
        Mat4 {
            r0: Vec4 { x: s, y: 0, z: 0, w: 0 },
            r1: Vec4 { x: 0, y: s, z: 0, w: 0 },
            r2: Vec4 { x: 0, y: 0, z: s, w: 0 },
            r3: Vec4 { x: 0, y: 0, z: 0, w: ONE },
        }
    }

    /// The rotation about the `x` axis by the angle with the given sine and
    /// cosine.
    pub open spec fn rotation_x(a: SinCos) -> Mat4 {
        Mat4 {
            r0: Vec4 { x: ONE, y: 0, z: 0, w: 0 },
            r1: Vec4 { x: 0, y: a.cos, z: negated(a.sin as int) as i32, w: 0 },
            r2: Vec4 { x: 0, y: a.sin, z: a.cos, w: 0 },
            r3: Vec4 { x: 0, y: 0, z: 0, w: ONE },
        }
    }

    /// The rotation about the `y` axis by the angle with the given sine and
    /// cosine.
    pub open spec fn rotation_y(a: SinCos) -> Mat4 {
        Mat4 {
            r0: Vec4 { x: a.cos, y: 0, z: a.sin, w: 0 },
            r1: Vec4 { x: 0, y: ONE, z: 0, w: 0 },
            r2: Vec4 { x: negated(a.sin as int) as i32, y: 0, z: a.cos, w: 0 },
            r3: Vec4 { x: 0, y: 0, z: 0, w: ONE },
        }
    }

    /// The rotation about the `z` axis by the angle with the given sine and
    /// cosine.
    pub open spec fn rotation_z(a: SinCos) -> Mat4 {
        Mat4 {
            r0: Vec4 { x: a.cos, y: negated(a.sin as int) as i32, z: 0, w: 0 },
            r1: Vec4 { x: a.sin, y: a.cos, z: 0, w: 0 },
            r2: Vec4 { x: 0, y: 0, z: ONE, w: 0 },
            r3: Vec4 { x: 0, y: 0, z: 0, w: ONE },
        }
    }

    /// The matrix that places a model in the world: it scales by `scale`,
    /// rotates about `x`, then `y`, then `z`, and moves by `translation`.
    pub open spec fn model(translation: Vec3, scale: i32, rotation: Rotation) -> Mat4 {
        Mat4::translation(translation).times(
            Mat4::rotation_z(rotation.z).times(Mat4::rotation_y(rotation.y)).times(
                Mat4::rotation_x(rotation.x),
            ),
        ).times(Mat4::scaling(scale))
    }

    /// The matrix that maps normalized device coordinates to the pixels of
    /// a screen of the given size: `x` from `-1..1` onto `0..width`, `y`
    /// from `1..-1` onto `0..height`, depth unchanged.
    pub open spec fn viewport(width: i32, height: i32) -> Mat4 {
        let half_width = trunc_div(width as int, 2) as i32;
        let half_height = trunc_div(height as int, 2) as i32;
        Mat4 {
            r0: Vec4 { x: half_width, y: 0, z: 0, w: half_width },
            r1: Vec4 { x: 0, y: negated(half_height as int) as i32, z: 0, w: half_height },
            r2: Vec4 { x: 0, y: 0, z: ONE, w: 0 },
            r3: Vec4 { x: 0, y: 0, z: 0, w: ONE },
        }
    }

    /// The identity matrix.
    pub fn identity() -> (m: Mat4)
        ensures
            m == Mat4::unit(),
    {
        Mat4 {
            r0: Vec4 { x: ONE, y: 0, z: 0, w: 0 },
            r1: Vec4 { x: 0, y: ONE, z: 0, w: 0 },
            r2: Vec4 { x: 0, y: 0, z: ONE, w: 0 },
            r3: Vec4 { x: 0, y: 0, z: 0, w: ONE },
        }
    }

    /// Applies the matrix to `v`.
    pub fn transform(&self, v: &Vec4) -> (r: Vec4)
        ensures
            r == self.apply(*v),
    {
        Vec4 {
            x: self.r0.dot_product(v),
            y: self.r1.dot_product(v),
            z: self.r2.dot_product(v),
            w: self.r3.dot_product(v),
        }
    }

    /// Multiplies two matrices.
    pub fn multiply(&self, other: &Mat4) -> (m: Mat4)
        ensures
            m == self.times(*other),
    {
        Mat4 {
            r0: other.row_product(&self.r0),
            r1: other.row_product(&self.r1),
            r2: other.row_product(&self.r2),
            r3: other.row_product(&self.r3),
        }
    }

    fn row_product(&self, row: &Vec4) -> (r: Vec4)
        ensures
            r == self.row_times(*row),
    {
        let c0 = Vec4 { x: self.r0.x, y: self.r1.x, z: self.r2.x, w: self.r3.x };
        let c1 = Vec4 { x: self.r0.y, y: self.r1.y, z: self.r2.y, w: self.r3.y };
        let c2 = Vec4 { x: self.r0.z, y: self.r1.z, z: self.r2.z, w: self.r3.z };
        let c3 = Vec4 { x: self.r0.w, y: self.r1.w, z: self.r2.w, w: self.r3.w };
        Vec4 {
            x: row.dot_product(&c0),
            y: row.dot_product(&c1),
            z: row.dot_product(&c2),
            w: row.dot_product(&c3),
        }
    }

    /// Takes the upper left three rows and columns.
    pub fn to_mat3(&self) -> (m: Mat3)
        ensures
            m == self.linear_part(),
    {
        Mat3 {
            r0: Vec3 { x: self.r0.x, y: self.r0.y, z: self.r0.z },
            r1: Vec3 { x: self.r1.x, y: self.r1.y, z: self.r1.z },
            r2: Vec3 { x: self.r2.x, y: self.r2.y, z: self.r2.z },
        }
    }
}

/// Negates a scalar, saturating.
pub fn negate(a: i32) -> (r: i32)
    ensures
        r == negated(a as int),
{
    saturate(-(a as i128))
}

/// Builds the matrix that places a model in the world, from its position,
/// its scale, and the sines and cosines of its rotation about the axes.
pub fn create_model_matrix(translation: Vec3, scale: i32, rotation: &Rotation) -> (m: Mat4)
    ensures
        m == Mat4::model(translation, scale, *rotation),
{
    let rotation_matrix_x = Mat4 {
        r0: Vec4 { x: ONE, y: 0, z: 0, w: 0 },
        r1: Vec4 { x: 0, y: rotation.x.cos, z: negate(rotation.x.sin), w: 0 },
        r2: Vec4 { x: 0, y: rotation.x.sin, z: rotation.x.cos, w: 0 },
        r3: Vec4 { x: 0, y: 0, z: 0, w: ONE },
    };
    let rotation_matrix_y = Mat4 {
        r0: Vec4 { x: rotation.y.cos, y: 0, z: rotation.y.sin, w: 0 },
        r1: Vec4 { x: 0, y: ONE, z: 0, w: 0 },
        r2: Vec4 { x: negate(rotation.y.sin), y: 0, z: rotation.y.cos, w: 0 },
        r3: Vec4 { x: 0, y: 0, z: 0, w: ONE },
    };
    let rotation_matrix_z = Mat4 {
        r0: Vec4 { x: rotation.z.cos, y: negate(rotation.z.sin), z: 0, w: 0 },
        r1: Vec4 { x: rotation.z.sin, y: rotation.z.cos, z: 0, w: 0 },
        r2: Vec4 { x: 0, y: 0, z: ONE, w: 0 },
        r3: Vec4 { x: 0, y: 0, z: 0, w: ONE },
    };
    let rotation_matrix = rotation_matrix_z.multiply(&rotation_matrix_y).multiply(
        &rotation_matrix_x,
    );
    let scale_matrix = Mat4 {
        r0: Vec4 { x: scale, y: 0, z: 0, w: 0 },
        r1: Vec4 { x: 0, y: scale, z: 0, w: 0 },
        r2: Vec4 { x: 0, y: 0, z: scale, w: 0 },
        r3: Vec4 { x: 0, y: 0, z: 0, w: ONE },
    };
    let translation_matrix = Mat4 {
        r0: Vec4 { x: ONE, y: 0, z: 0, w: translation.x },
        r1: Vec4 { x: 0, y: ONE, z: 0, w: translation.y },
        r2: Vec4 { x: 0, y: 0, z: ONE, w: translation.z },
        r3: Vec4 { x: 0, y: 0, z: 0, w: ONE },
    };
    translation_matrix.multiply(&rotation_matrix).multiply(&scale_matrix)
}

/// Builds the matrix that maps normalized device coordinates to the pixels
/// of a screen of the given size.
pub fn create_viewport_matrix(width: i32, height: i32) -> (m: Mat4)
    ensures
        m == Mat4::viewport(width, height),
{
    let half_width: i32 = width / 2;
    let half_height: i32 = height / 2;
    Mat4 {
        r0: Vec4 { x: half_width, y: 0, z: 0, w: half_width },
        r1: Vec4 { x: 0, y: negate(half_height), z: 0, w: half_height },
        r2: Vec4 { x: 0, y: 0, z: ONE, w: 0 },
        r3: Vec4 { x: 0, y: 0, z: 0, w: ONE },
    }
}

} // verus!
