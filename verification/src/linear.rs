//! Linear algebra definitions.
//!
//! Matrices are stored by column because transformation composition and
//! translation injection (adding a position vector into column 3) are
//! column-oriented operations; rows are derived on demand for the
//! multiplication algorithm.
//!
//! All operations compute the exact mathematical result over the scalar
//! domain; an operation whose result could leave the scalar range requires
//! in its contract that it does not.

use vstd::prelude::*;

verus! {

/// The backing storage unit of [matrices](Matrix) and [vectors](Vector).
pub type Scalar = i64;

/// A 4x1 column matrix of [`Scalar`](Scalar)s.
#[derive(Clone, Copy, Debug, PartialEq, Eq, Structural)]
pub struct Vector {
    /// The row 0 component.
    pub x: Scalar,
    /// The row 1 component.
    pub y: Scalar,
    /// The row 2 component.
    pub z: Scalar,
    /// The row 3 component, the homogeneous coordinate.
    pub w: Scalar,
}

impl Vector {
    /// The component of this vector at row `r`.
    pub open spec fn comp(self, r: int) -> int {
        if r == 0 {
            self.x as int
        } else if r == 1 {
            self.y as int
        } else if r == 2 {
            self.z as int
        } else {
            self.w as int
        }
    }

    /// Creates a new `Vector` with the given components, top to bottom.
    pub fn new(r0: Scalar, r1: Scalar, r2: Scalar, r3: Scalar) -> (v: Vector)
        ensures
            v == (Vector { x: r0, y: r1, z: r2, w: r3 }),
    {
        Vector { x: r0, y: r1, z: r2, w: r3 }
    }

    /// The vector whose components are all zero.
    pub fn zero() -> (v: Vector)
        ensures
            v == (Vector { x: 0i64, y: 0i64, z: 0i64, w: 0i64 }),
    {
        Vector { x: 0, y: 0, z: 0, w: 0 }
    }

    /// The horizontal sum of the four components, used to compute dot
    /// products.
    pub fn sum(&self) -> (s: Scalar)
        requires
            i64::MIN <= self.x + self.y + self.z + self.w <= i64::MAX,
        ensures
            s == self.x + self.y + self.z + self.w,
    {
        let wide: i128 = self.x as i128 + self.y as i128 + self.z as i128 + self.w as i128;
        wide as i64
    }

    /// The components of this vector as an array, top to bottom.
    pub fn to_array(&self) -> (a: [Scalar; 4])
        ensures
            a[0] == self.x,
            a[1] == self.y,
            a[2] == self.z,
            a[3] == self.w,
    {
        [self.x, self.y, self.z, self.w]
    }

    /// Component-wise vector addition.
    pub fn add(self, rhs: Vector) -> (v: Vector)
        requires
            i64::MIN <= self.x + rhs.x <= i64::MAX,
            i64::MIN <= self.y + rhs.y <= i64::MAX,
            i64::MIN <= self.z + rhs.z <= i64::MAX,
            i64::MIN <= self.w + rhs.w <= i64::MAX,
        ensures
            v.x == self.x + rhs.x,
            v.y == self.y + rhs.y,
            v.z == self.z + rhs.z,
            v.w == self.w + rhs.w,
    {
        Vector { x: self.x + rhs.x, y: self.y + rhs.y, z: self.z + rhs.z, w: self.w + rhs.w }
    }

    /// Component-wise vector addition in place.
    pub fn add_assign(&mut self, rhs: Vector)
        requires
            i64::MIN <= old(self).x + rhs.x <= i64::MAX,
            i64::MIN <= old(self).y + rhs.y <= i64::MAX,
            i64::MIN <= old(self).z + rhs.z <= i64::MAX,
            i64::MIN <= old(self).w + rhs.w <= i64::MAX,
        ensures
            final(self).x == old(self).x + rhs.x,
            final(self).y == old(self).y + rhs.y,
            final(self).z == old(self).z + rhs.z,
            final(self).w == old(self).w + rhs.w,
    {
        *self = self.add(rhs);
    }

    /// Component-wise vector multiplication.
    pub fn mul(self, rhs: Vector) -> (v: Vector)
        requires
            i64::MIN <= self.x * rhs.x <= i64::MAX,
            i64::MIN <= self.y * rhs.y <= i64::MAX,
            i64::MIN <= self.z * rhs.z <= i64::MAX,
            i64::MIN <= self.w * rhs.w <= i64::MAX,
        ensures
            v.x == self.x * rhs.x,
            v.y == self.y * rhs.y,
            v.z == self.z * rhs.z,
            v.w == self.w * rhs.w,
    {
        proof {
            lemma_scalar_product_in_wide_range(self.x as int, rhs.x as int);
            lemma_scalar_product_in_wide_range(self.y as int, rhs.y as int);
            lemma_scalar_product_in_wide_range(self.z as int, rhs.z as int);
            lemma_scalar_product_in_wide_range(self.w as int, rhs.w as int);
        }
        Vector {
            x: ((self.x as i128) * (rhs.x as i128)) as i64,
            y: ((self.y as i128) * (rhs.y as i128)) as i64,
            z: ((self.z as i128) * (rhs.z as i128)) as i64,
            w: ((self.w as i128) * (rhs.w as i128)) as i64,
        }
    }

    /// Multiplication by a scalar; multiplication with a scalar is
    /// commutative, so a single operation serves both orders.
    pub fn scale(self, rhs: Scalar) -> (v: Vector)
        requires
            i64::MIN <= self.x * rhs <= i64::MAX,
            i64::MIN <= self.y * rhs <= i64::MAX,
            i64::MIN <= self.z * rhs <= i64::MAX,
            i64::MIN <= self.w * rhs <= i64::MAX,
        ensures
            v.x == self.x * rhs,
            v.y == self.y * rhs,
            v.z == self.z * rhs,
            v.w == self.w * rhs,
    {
        proof {
            lemma_scalar_product_in_wide_range(self.x as int, rhs as int);
            lemma_scalar_product_in_wide_range(self.y as int, rhs as int);
            lemma_scalar_product_in_wide_range(self.z as int, rhs as int);
            lemma_scalar_product_in_wide_range(self.w as int, rhs as int);
        }
        Vector {
            x: ((self.x as i128) * (rhs as i128)) as i64,
            y: ((self.y as i128) * (rhs as i128)) as i64,
            z: ((self.z as i128) * (rhs as i128)) as i64,
            w: ((self.w as i128) * (rhs as i128)) as i64,
        }
    }
}

/// The exact dot product of two vectors, summed over all four components.
pub open spec fn dot_spec(a: Vector, b: Vector) -> int {
    a.x * b.x + a.y * b.y + a.z * b.z + a.w * b.w
}

/// The product of two values of the scalar range lies strictly within the
/// range of the wide accumulator.
proof fn lemma_scalar_product_in_wide_range(a: int, b: int)
    by (nonlinear_arith)
    requires
        i64::MIN <= a <= i64::MAX,
        i64::MIN <= b <= i64::MAX,
    ensures
        -0x40000000000000000000000000000000 <= a * b <= 0x40000000000000000000000000000000,
{
}

/// The dot product of two vectors, computed with a wide accumulator so that
/// only the final result must fit the scalar range.
fn dot(a: &Vector, b: &Vector) -> (s: Scalar)
    requires
        i64::MIN <= dot_spec(*a, *b) <= i64::MAX,
    ensures
        s == dot_spec(*a, *b),
{
    proof {
        lemma_scalar_product_in_wide_range(a.x as int, b.x as int);
        lemma_scalar_product_in_wide_range(a.y as int, b.y as int);
        lemma_scalar_product_in_wide_range(a.z as int, b.z as int);
        lemma_scalar_product_in_wide_range(a.w as int, b.w as int);
    }
    let p0: i128 = (a.x as i128) * (b.x as i128);
    let p1: i128 = (a.y as i128) * (b.y as i128);
    let p2: i128 = (a.z as i128) * (b.z as i128);
    let p3: i128 = (a.w as i128) * (b.w as i128);
    let t1: i128 = p0.wrapping_add(p1);
    let t2: i128 = t1.wrapping_add(p2);
    let t3: i128 = t2.wrapping_add(p3);
    t3 as i64
}

/// A 4x4 square matrix of [`Scalar`](Scalar)s, stored as four column
/// [`Vector`](Vector)s.
#[derive(Clone, Copy, Debug, PartialEq, Eq, Structural)]
pub struct Matrix {
    /// Column 0.
    pub c0: Vector,
    /// Column 1.
    pub c1: Vector,
    /// Column 2.
    pub c2: Vector,
    /// Column 3, which carries the translation of a transform matrix.
    pub c3: Vector,
}

impl Matrix {
    /// The column of this matrix at index `c`.
    pub open spec fn col(self, c: int) -> Vector {
        if c == 0 {
            self.c0
        } else if c == 1 {
            self.c1
        } else if c == 2 {
            self.c2
        } else {
            self.c3
        }
    }

    /// The entry of this matrix at row `r` of column `c`.
    pub open spec fn entry(self, r: int, c: int) -> int {
        self.col(c).comp(r)
    }

    /// This matrix with the column at index `c` replaced by `v`.
    pub open spec fn spec_set_column(self, c: int, v: Vector) -> Matrix {
        if c == 0 {
            Matrix { c0: v, ..self }
        } else if c == 1 {
            Matrix { c1: v, ..self }
        } else if c == 2 {
            Matrix { c2: v, ..self }
        } else {
            Matrix { c3: v, ..self }
        }
    }

    /// Creates a new `Matrix` with the given 16 elements provided in
    /// left-to-right, top-to-bottom order.
    pub fn new(
        r0c0: Scalar,
        r0c1: Scalar,
        r0c2: Scalar,
        r0c3: Scalar,
        r1c0: Scalar,
        r1c1: Scalar,
        r1c2: Scalar,
        r1c3: Scalar,
        r2c0: Scalar,
        r2c1: Scalar,
        r2c2: Scalar,
        r2c3: Scalar,
        r3c0: Scalar,
        r3c1: Scalar,
        r3c2: Scalar,
        r3c3: Scalar,
    ) -> (m: Matrix)
        ensures
            m == (Matrix {
                c0: Vector { x: r0c0, y: r1c0, z: r2c0, w: r3c0 },
                c1: Vector { x: r0c1, y: r1c1, z: r2c1, w: r3c1 },
                c2: Vector { x: r0c2, y: r1c2, z: r2c2, w: r3c2 },
                c3: Vector { x: r0c3, y: r1c3, z: r2c3, w: r3c3 },
            }),
    {
        Matrix {
            c0: Vector::new(r0c0, r1c0, r2c0, r3c0),
            c1: Vector::new(r0c1, r1c1, r2c1, r3c1),
            c2: Vector::new(r0c2, r1c2, r2c2, r3c2),
            c3: Vector::new(r0c3, r1c3, r2c3, r3c3),
        }
    }

    /// The matrix whose entries are all zero.
    pub fn zero() -> (m: Matrix)
        ensures
            is_zero(m),
    {
        Matrix::new(0, 0, 0, 0, 0, 0, 0, 0, 0, 0, 0, 0, 0, 0, 0, 0)
    }

    /// The identity matrix.
    pub fn identity() -> (m: Matrix)
        ensures
            is_identity(m),
    {
        Matrix::new(1, 0, 0, 0, 0, 1, 0, 0, 0, 0, 1, 0, 0, 0, 0, 1)
    }

    /// The four column vectors, left to right.
    pub fn columns(&self) -> (cols: [Vector; 4])
        ensures
            cols[0] == self.c0,
            cols[1] == self.c1,
            cols[2] == self.c2,
            cols[3] == self.c3,
    {
        [self.c0, self.c1, self.c2, self.c3]
    }

    /// Replaces the column at index `c`, used when composing translation by
    /// writing a vector into the fourth column in place.
    pub fn set_column(&mut self, c: usize, v: Vector)
        requires
            c < 4,
        ensures
            *final(self) == old(self).spec_set_column(c as int, v),
    {
        if c == 0 {
            self.c0 = v;
        } else if c == 1 {
            self.c1 = v;
        } else if c == 2 {
            self.c2 = v;
        } else {
            self.c3 = v;
        }
    }

    /// Derives the four row vectors from the column-major storage.
    pub fn as_rows(&self) -> (rows: [Vector; 4])
        ensures
            rows[0] == (Vector { x: self.c0.x, y: self.c1.x, z: self.c2.x, w: self.c3.x }),
            rows[1] == (Vector { x: self.c0.y, y: self.c1.y, z: self.c2.y, w: self.c3.y }),
            rows[2] == (Vector { x: self.c0.z, y: self.c1.z, z: self.c2.z, w: self.c3.z }),
            rows[3] == (Vector { x: self.c0.w, y: self.c1.w, z: self.c2.w, w: self.c3.w }),
    {
        [
            Vector::new(self.c0.x, self.c1.x, self.c2.x, self.c3.x),
            Vector::new(self.c0.y, self.c1.y, self.c2.y, self.c3.y),
            Vector::new(self.c0.z, self.c1.z, self.c2.z, self.c3.z),
            Vector::new(self.c0.w, self.c1.w, self.c2.w, self.c3.w),
        ]
    }

    /// The entries of this matrix as an array of columns: the outer index is
    /// the column, the inner index the row.
    pub fn to_array(&self) -> (a: [[Scalar; 4]; 4])
        ensures
            a[0] == [self.c0.x, self.c0.y, self.c0.z, self.c0.w],
            a[1] == [self.c1.x, self.c1.y, self.c1.z, self.c1.w],
            a[2] == [self.c2.x, self.c2.y, self.c2.z, self.c2.w],
            a[3] == [self.c3.x, self.c3.y, self.c3.z, self.c3.w],
    {
        [self.c0.to_array(), self.c1.to_array(), self.c2.to_array(), self.c3.to_array()]
    }

    /// Component-wise (column-wise) matrix addition.
    pub fn add(self, rhs: Matrix) -> (m: Matrix)
        requires
            add_fits(self, rhs),
        ensures
            m == mat_add(self, rhs),
    {
        let m = Matrix {
            c0: self.c0.add(rhs.c0),
            c1: self.c1.add(rhs.c1),
            c2: self.c2.add(rhs.c2),
            c3: self.c3.add(rhs.c3),
        };
        m
    }

    /// Component-wise scaling; multiplication with a scalar is commutative,
    /// so a single operation serves both orders.
    pub fn scale(self, rhs: Scalar) -> (m: Matrix)
        requires
            scale_fits(self, rhs),
        ensures
            m == mat_scale(self, rhs),
    {
        let m = Matrix {
            c0: self.c0.scale(rhs),
            c1: self.c1.scale(rhs),
            c2: self.c2.scale(rhs),
            c3: self.c3.scale(rhs),
        };
        m
    }

    /// The standard matrix product: the entry of the result at row `r` of
    /// column `c` is the dot product of the left operand's row `r` with the
    /// right operand's column `c`. Not commutative in general.
    pub fn mul(&self, rhs: &Matrix) -> (m: Matrix)
        requires
            mul_fits(*self, *rhs),
        ensures
            m == mat_mul(*self, *rhs),
    {
        let rows = self.as_rows();
        let m = Matrix {
            c0: Vector::new(
                dot(&rows[0], &rhs.c0),
                dot(&rows[1], &rhs.c0),
                dot(&rows[2], &rhs.c0),
                dot(&rows[3], &rhs.c0),
            ),
            c1: Vector::new(
                dot(&rows[0], &rhs.c1),
                dot(&rows[1], &rhs.c1),
                dot(&rows[2], &rhs.c1),
                dot(&rows[3], &rhs.c1),
            ),
            c2: Vector::new(
                dot(&rows[0], &rhs.c2),
                dot(&rows[1], &rhs.c2),
                dot(&rows[2], &rhs.c2),
                dot(&rows[3], &rhs.c2),
            ),
            c3: Vector::new(
                dot(&rows[0], &rhs.c3),
                dot(&rows[1], &rhs.c3),
                dot(&rows[2], &rhs.c3),
                dot(&rows[3], &rhs.c3),
            ),
        };
        m
    }

    /// The matrix-vector product: the component of the result at row `r` is
    /// the dot product of this matrix's row `r` with the given vector.
    pub fn apply(&self, v: &Vector) -> (w: Vector)
        requires
            apply_fits(*self, *v),
        ensures
            w == mat_apply(*self, *v),
    {
        let rows = self.as_rows();
        let w = Vector::new(dot(&rows[0], v), dot(&rows[1], v), dot(&rows[2], v), dot(&rows[3], v));
        w
    }
}

/// Whether `m` is the identity matrix: ones on the diagonal, zeroes
/// elsewhere.
pub open spec fn is_identity(m: Matrix) -> bool {
    m == (Matrix {
        c0: Vector { x: 1i64, y: 0i64, z: 0i64, w: 0i64 },
        c1: Vector { x: 0i64, y: 1i64, z: 0i64, w: 0i64 },
        c2: Vector { x: 0i64, y: 0i64, z: 1i64, w: 0i64 },
        c3: Vector { x: 0i64, y: 0i64, z: 0i64, w: 1i64 },
    })
}

/// Whether every entry of `m` is zero.
pub open spec fn is_zero(m: Matrix) -> bool {
    m == (Matrix {
        c0: Vector { x: 0i64, y: 0i64, z: 0i64, w: 0i64 },
        c1: Vector { x: 0i64, y: 0i64, z: 0i64, w: 0i64 },
        c2: Vector { x: 0i64, y: 0i64, z: 0i64, w: 0i64 },
        c3: Vector { x: 0i64, y: 0i64, z: 0i64, w: 0i64 },
    })
}

/// The exact entry at row `r` of column `c` of the matrix product `a * b`:
/// the dot product of row `r` of `a` with column `c` of `b`.
pub open spec fn mul_entry(a: Matrix, b: Matrix, r: int, c: int) -> int {
    a.entry(r, 0) * b.entry(0, c) + a.entry(r, 1) * b.entry(1, c) + a.entry(r, 2) * b.entry(2, c)
        + a.entry(r, 3) * b.entry(3, c)
}

/// Whether every entry of the matrix product `a * b` fits the scalar range.
pub open spec fn mul_fits(a: Matrix, b: Matrix) -> bool {
    &&& i64::MIN <= mul_entry(a, b, 0, 0) <= i64::MAX
    &&& i64::MIN <= mul_entry(a, b, 0, 1) <= i64::MAX
    &&& i64::MIN <= mul_entry(a, b, 0, 2) <= i64::MAX
    &&& i64::MIN <= mul_entry(a, b, 0, 3) <= i64::MAX
    &&& i64::MIN <= mul_entry(a, b, 1, 0) <= i64::MAX
    &&& i64::MIN <= mul_entry(a, b, 1, 1) <= i64::MAX
    &&& i64::MIN <= mul_entry(a, b, 1, 2) <= i64::MAX
    &&& i64::MIN <= mul_entry(a, b, 1, 3) <= i64::MAX
    &&& i64::MIN <= mul_entry(a, b, 2, 0) <= i64::MAX
    &&& i64::MIN <= mul_entry(a, b, 2, 1) <= i64::MAX
    &&& i64::MIN <= mul_entry(a, b, 2, 2) <= i64::MAX
    &&& i64::MIN <= mul_entry(a, b, 2, 3) <= i64::MAX
    &&& i64::MIN <= mul_entry(a, b, 3, 0) <= i64::MAX
    &&& i64::MIN <= mul_entry(a, b, 3, 1) <= i64::MAX
    &&& i64::MIN <= mul_entry(a, b, 3, 2) <= i64::MAX
    &&& i64::MIN <= mul_entry(a, b, 3, 3) <= i64::MAX
}

/// The matrix product `a * b`. Every entry is exact when `mul_fits(a, b)`
/// holds.
pub open spec fn mat_mul(a: Matrix, b: Matrix) -> Matrix {
    Matrix {
        c0: Vector {
            x: mul_entry(a, b, 0, 0) as i64,
            y: mul_entry(a, b, 1, 0) as i64,
            z: mul_entry(a, b, 2, 0) as i64,
            w: mul_entry(a, b, 3, 0) as i64,
        },
        c1: Vector {
            x: mul_entry(a, b, 0, 1) as i64,
            y: mul_entry(a, b, 1, 1) as i64,
            z: mul_entry(a, b, 2, 1) as i64,
            w: mul_entry(a, b, 3, 1) as i64,
        },
        c2: Vector {
            x: mul_entry(a, b, 0, 2) as i64,
            y: mul_entry(a, b, 1, 2) as i64,
            z: mul_entry(a, b, 2, 2) as i64,
            w: mul_entry(a, b, 3, 2) as i64,
        },
        c3: Vector {
            x: mul_entry(a, b, 0, 3) as i64,
            y: mul_entry(a, b, 1, 3) as i64,
            z: mul_entry(a, b, 2, 3) as i64,
            w: mul_entry(a, b, 3, 3) as i64,
        },
    }
}

/// Whether every component of the vector sum `a + b` fits the scalar range.
pub open spec fn vec_add_fits(a: Vector, b: Vector) -> bool {
    &&& i64::MIN <= a.x + b.x <= i64::MAX
    &&& i64::MIN <= a.y + b.y <= i64::MAX
    &&& i64::MIN <= a.z + b.z <= i64::MAX
    &&& i64::MIN <= a.w + b.w <= i64::MAX
}

/// Whether every entry of the matrix sum `a + b` fits the scalar range.
pub open spec fn add_fits(a: Matrix, b: Matrix) -> bool {
    &&& vec_add_fits(a.c0, b.c0)
    &&& vec_add_fits(a.c1, b.c1)
    &&& vec_add_fits(a.c2, b.c2)
    &&& vec_add_fits(a.c3, b.c3)
}

/// The matrix sum `a + b`. Every entry is exact when `add_fits(a, b)` holds.
pub open spec fn mat_add(a: Matrix, b: Matrix) -> Matrix {
    Matrix {
        c0: Vector {
            x: (a.c0.x + b.c0.x) as i64,
            y: (a.c0.y + b.c0.y) as i64,
            z: (a.c0.z + b.c0.z) as i64,
            w: (a.c0.w + b.c0.w) as i64,
        },
        c1: Vector {
            x: (a.c1.x + b.c1.x) as i64,
            y: (a.c1.y + b.c1.y) as i64,
            z: (a.c1.z + b.c1.z) as i64,
            w: (a.c1.w + b.c1.w) as i64,
        },
        c2: Vector {
            x: (a.c2.x + b.c2.x) as i64,
            y: (a.c2.y + b.c2.y) as i64,
            z: (a.c2.z + b.c2.z) as i64,
            w: (a.c2.w + b.c2.w) as i64,
        },
        c3: Vector {
            x: (a.c3.x + b.c3.x) as i64,
            y: (a.c3.y + b.c3.y) as i64,
            z: (a.c3.z + b.c3.z) as i64,
            w: (a.c3.w + b.c3.w) as i64,
        },
    }
}

/// Whether every component of the vector `v` scaled by `k` fits the scalar
/// range.
pub open spec fn vec_scale_fits(v: Vector, k: Scalar) -> bool {
    &&& i64::MIN <= v.x * k <= i64::MAX
    &&& i64::MIN <= v.y * k <= i64::MAX
    &&& i64::MIN <= v.z * k <= i64::MAX
    &&& i64::MIN <= v.w * k <= i64::MAX
}

/// Whether every entry of `m` scaled by `k` fits the scalar range.
pub open spec fn scale_fits(m: Matrix, k: Scalar) -> bool {
    &&& vec_scale_fits(m.c0, k)
    &&& vec_scale_fits(m.c1, k)
    &&& vec_scale_fits(m.c2, k)
    &&& vec_scale_fits(m.c3, k)
}

/// The matrix `m` scaled by `k`. Every entry is exact when
/// `scale_fits(m, k)` holds.
pub open spec fn mat_scale(m: Matrix, k: Scalar) -> Matrix {
    Matrix {
        c0: Vector {
            x: (m.c0.x * k) as i64,
            y: (m.c0.y * k) as i64,
            z: (m.c0.z * k) as i64,
            w: (m.c0.w * k) as i64,
        },
        c1: Vector {
            x: (m.c1.x * k) as i64,
            y: (m.c1.y * k) as i64,
            z: (m.c1.z * k) as i64,
            w: (m.c1.w * k) as i64,
        },
        c2: Vector {
            x: (m.c2.x * k) as i64,
            y: (m.c2.y * k) as i64,
            z: (m.c2.z * k) as i64,
            w: (m.c2.w * k) as i64,
        },
        c3: Vector {
            x: (m.c3.x * k) as i64,
            y: (m.c3.y * k) as i64,
            z: (m.c3.z * k) as i64,
            w: (m.c3.w * k) as i64,
        },
    }
}

/// The exact component at row `r` of the matrix-vector product `m * v`: the
/// dot product of row `r` of `m` with `v`.
pub open spec fn apply_entry(m: Matrix, v: Vector, r: int) -> int {
    m.entry(r, 0) * v.x + m.entry(r, 1) * v.y + m.entry(r, 2) * v.z + m.entry(r, 3) * v.w
}

/// Whether every component of the matrix-vector product `m * v` fits the
/// scalar range.
pub open spec fn apply_fits(m: Matrix, v: Vector) -> bool {
    &&& i64::MIN <= apply_entry(m, v, 0) <= i64::MAX
    &&& i64::MIN <= apply_entry(m, v, 1) <= i64::MAX
    &&& i64::MIN <= apply_entry(m, v, 2) <= i64::MAX
    &&& i64::MIN <= apply_entry(m, v, 3) <= i64::MAX
}

/// The matrix-vector product `m * v`. Every component is exact when
/// `apply_fits(m, v)` holds.
pub open spec fn mat_apply(m: Matrix, v: Vector) -> Vector {
    Vector {
        x: apply_entry(m, v, 0) as i64,
        y: apply_entry(m, v, 1) as i64,
        z: apply_entry(m, v, 2) as i64,
        w: apply_entry(m, v, 3) as i64,
    }
}

/// Multiplication by the identity matrix, from either side, returns the
/// other operand unchanged, and always fits the scalar range.
pub proof fn lemma_mul_identity(a: Matrix, i: Matrix)
    requires
        is_identity(i),
    ensures
        mul_fits(a, i),
        mul_fits(i, a),
        mat_mul(a, i) == a,
        mat_mul(i, a) == a,
{
    assert forall|r: int, c: int| 0 <= r < 4 && 0 <= c < 4 implies #[trigger] mul_entry(a, i, r, c)
        == a.entry(r, c) by {
        if c == 0 {
            assert(mul_entry(a, i, r, 0) == a.entry(r, 0));
        } else if c == 1 {
            assert(mul_entry(a, i, r, 1) == a.entry(r, 1));
        } else if c == 2 {
            assert(mul_entry(a, i, r, 2) == a.entry(r, 2));
        } else {
            assert(mul_entry(a, i, r, 3) == a.entry(r, 3));
        }
    }
    assert forall|r: int, c: int| 0 <= r < 4 && 0 <= c < 4 implies #[trigger] mul_entry(i, a, r, c)
        == a.entry(r, c) by {
        if r == 0 {
            assert(mul_entry(i, a, 0, c) == a.entry(0, c));
        } else if r == 1 {
            assert(mul_entry(i, a, 1, c) == a.entry(1, c));
        } else if r == 2 {
            assert(mul_entry(i, a, 2, c) == a.entry(2, c));
        } else {
            assert(mul_entry(i, a, 3, c) == a.entry(3, c));
        }
    }
    assert(mat_mul(a, i) == a);
    assert(mat_mul(i, a) == a);
}

/// The identity matrix applied to a vector returns the vector unchanged, and
/// always fits the scalar range.
pub proof fn lemma_apply_identity(i: Matrix, v: Vector)
    requires
        is_identity(i),
    ensures
        apply_fits(i, v),
        mat_apply(i, v) == v,
{
    assert(apply_entry(i, v, 0) == v.x);
    assert(apply_entry(i, v, 1) == v.y);
    assert(apply_entry(i, v, 2) == v.z);
    assert(apply_entry(i, v, 3) == v.w);
    assert(mat_apply(i, v) == v);
}

/// A sum of four terms distributes over multiplication from the right.
proof fn lemma_distribute_sum_right(s0: int, s1: int, s2: int, s3: int, k: int)
    by (nonlinear_arith)
    ensures
        (s0 + s1 + s2 + s3) * k == s0 * k + s1 * k + s2 * k + s3 * k,
{
}

/// A sum of four terms distributes over multiplication from the left.
proof fn lemma_distribute_sum_left(k: int, t0: int, t1: int, t2: int, t3: int)
    by (nonlinear_arith)
    ensures
        k * (t0 + t1 + t2 + t3) == k * t0 + k * t1 + k * t2 + k * t3,
{
}

/// Multiplication of three terms is associative.
proof fn lemma_product_assoc(x: int, y: int, z: int)
    by (nonlinear_arith)
    ensures
        (x * y) * z == x * (y * z),
{
}

/// Distributing a row through a product of sums: the algebraic core of the
/// associativity of matrix multiplication, for one entry of the result.
proof fn lemma_sum_of_products_assoc(
    a0: int,
    a1: int,
    a2: int,
    a3: int,
    b00: int,
    b01: int,
    b02: int,
    b03: int,
    b10: int,
    b11: int,
    b12: int,
    b13: int,
    b20: int,
    b21: int,
    b22: int,
    b23: int,
    b30: int,
    b31: int,
    b32: int,
    b33: int,
    c0: int,
    c1: int,
    c2: int,
    c3: int,
)
    ensures
        (a0 * b00 + a1 * b10 + a2 * b20 + a3 * b30) * c0 + (a0 * b01 + a1 * b11 + a2 * b21 + a3
            * b31) * c1 + (a0 * b02 + a1 * b12 + a2 * b22 + a3 * b32) * c2 + (a0 * b03 + a1 * b13
            + a2 * b23 + a3 * b33) * c3 == a0 * (b00 * c0 + b01 * c1 + b02 * c2 + b03 * c3) + a1 * (
        b10 * c0 + b11 * c1 + b12 * c2 + b13 * c3) + a2 * (b20 * c0 + b21 * c1 + b22 * c2 + b23
            * c3) + a3 * (b30 * c0 + b31 * c1 + b32 * c2 + b33 * c3),
{
    lemma_distribute_sum_right(a0 * b00, a1 * b10, a2 * b20, a3 * b30, c0);
    lemma_distribute_sum_right(a0 * b01, a1 * b11, a2 * b21, a3 * b31, c1);
    lemma_distribute_sum_right(a0 * b02, a1 * b12, a2 * b22, a3 * b32, c2);
    lemma_distribute_sum_right(a0 * b03, a1 * b13, a2 * b23, a3 * b33, c3);
    lemma_product_assoc(a0, b00, c0);
    lemma_product_assoc(a0, b01, c1);
    lemma_product_assoc(a0, b02, c2);
    lemma_product_assoc(a0, b03, c3);
    lemma_product_assoc(a1, b10, c0);
    lemma_product_assoc(a1, b11, c1);
    lemma_product_assoc(a1, b12, c2);
    lemma_product_assoc(a1, b13, c3);
    lemma_product_assoc(a2, b20, c0);
    lemma_product_assoc(a2, b21, c1);
    lemma_product_assoc(a2, b22, c2);
    lemma_product_assoc(a2, b23, c3);
    lemma_product_assoc(a3, b30, c0);
    lemma_product_assoc(a3, b31, c1);
    lemma_product_assoc(a3, b32, c2);
    lemma_product_assoc(a3, b33, c3);
    lemma_distribute_sum_left(a0, b00 * c0, b01 * c1, b02 * c2, b03 * c3);
    lemma_distribute_sum_left(a1, b10 * c0, b11 * c1, b12 * c2, b13 * c3);
    lemma_distribute_sum_left(a2, b20 * c0, b21 * c1, b22 * c2, b23 * c3);
    lemma_distribute_sum_left(a3, b30 * c0, b31 * c1, b32 * c2, b33 * c3);
}

/// The exact entry at row `r` of column `c` of the triple product
/// `(a * b) * d`, with no intermediate rounding to the scalar range.
pub open spec fn mul3_left_entry(a: Matrix, b: Matrix, d: Matrix, r: int, c: int) -> int {
    mul_entry(a, b, r, 0) * d.entry(0, c) + mul_entry(a, b, r, 1) * d.entry(1, c) + mul_entry(
        a,
        b,
        r,
        2,
    ) * d.entry(2, c) + mul_entry(a, b, r, 3) * d.entry(3, c)
}

/// The exact entry at row `r` of column `c` of the triple product
/// `a * (b * d)`, with no intermediate rounding to the scalar range.
pub open spec fn mul3_right_entry(a: Matrix, b: Matrix, d: Matrix, r: int, c: int) -> int {
    a.entry(r, 0) * mul_entry(b, d, 0, c) + a.entry(r, 1) * mul_entry(b, d, 1, c) + a.entry(r, 2)
        * mul_entry(b, d, 2, c) + a.entry(r, 3) * mul_entry(b, d, 3, c)
}

/// Matrix multiplication is associative: the exact triple products
/// `(a * b) * d` and `a * (b * d)` agree on every entry.
pub proof fn lemma_mul_assoc(a: Matrix, b: Matrix, d: Matrix)
    ensures
        forall|r: int, c: int|
            0 <= r < 4 && 0 <= c < 4 ==> #[trigger] mul3_left_entry(a, b, d, r, c)
                == mul3_right_entry(a, b, d, r, c),
{
    assert forall|r: int, c: int| 0 <= r < 4 && 0 <= c < 4 implies #[trigger] mul3_left_entry(
        a,
        b,
        d,
        r,
        c,
    ) == mul3_right_entry(a, b, d, r, c) by {
        lemma_sum_of_products_assoc(
            a.entry(r, 0),
            a.entry(r, 1),
            a.entry(r, 2),
            a.entry(r, 3),
            b.entry(0, 0),
            b.entry(0, 1),
            b.entry(0, 2),
            b.entry(0, 3),
            b.entry(1, 0),
            b.entry(1, 1),
            b.entry(1, 2),
            b.entry(1, 3),
            b.entry(2, 0),
            b.entry(2, 1),
            b.entry(2, 2),
            b.entry(2, 3),
            b.entry(3, 0),
            b.entry(3, 1),
            b.entry(3, 2),
            b.entry(3, 3),
            d.entry(0, c),
            d.entry(1, c),
            d.entry(2, c),
            d.entry(3, c),
        );
    }
}

/// Matrix multiplication through the scalar range is associative wherever
/// every intermediate product fits that range: rounding never occurs, so the
/// two groupings agree.
pub proof fn lemma_mat_mul_assoc(a: Matrix, b: Matrix, d: Matrix)
    requires
        mul_fits(a, b),
        mul_fits(mat_mul(a, b), d),
        mul_fits(b, d),
        mul_fits(a, mat_mul(b, d)),
    ensures
        mat_mul(mat_mul(a, b), d) == mat_mul(a, mat_mul(b, d)),
{
    lemma_mul_assoc(a, b, d);
    assert forall|r: int, c: int| 0 <= r < 4 && 0 <= c < 4 implies #[trigger] mul_entry(
        mat_mul(a, b),
        d,
        r,
        c,
    ) == mul_entry(a, mat_mul(b, d), r, c) by {
        assert(mul_entry(a, b, r, 0) == mat_mul(a, b).entry(r, 0));
        assert(mul_entry(a, b, r, 1) == mat_mul(a, b).entry(r, 1));
        assert(mul_entry(a, b, r, 2) == mat_mul(a, b).entry(r, 2));
        assert(mul_entry(a, b, r, 3) == mat_mul(a, b).entry(r, 3));
        assert(mul_entry(b, d, 0, c) == mat_mul(b, d).entry(0, c));
        assert(mul_entry(b, d, 1, c) == mat_mul(b, d).entry(1, c));
        assert(mul_entry(b, d, 2, c) == mat_mul(b, d).entry(2, c));
        assert(mul_entry(b, d, 3, c) == mat_mul(b, d).entry(3, c));
        assert(mul_entry(mat_mul(a, b), d, r, c) == mul3_left_entry(a, b, d, r, c));
        assert(mul_entry(a, mat_mul(b, d), r, c) == mul3_right_entry(a, b, d, r, c));
    }
    assert(mat_mul(mat_mul(a, b), d) == mat_mul(a, mat_mul(b, d)));
}

} // verus!
