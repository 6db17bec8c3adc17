//! Four-by-four fixed-point matrices, stored column major.
//!
//! Entry `cJrI` is column `J`, row `I`, in millionths.  The product
//! of two matrices rescales each entry by one factor of [`SCALE`],
//! so a chain of multiplications stays in fixed point throughout.

use vstd::prelude::*;
use crate::fixed::{divt, lemma_divt_quotient_bound, SCALE};
use crate::vec3::{lemma_mul_range, COORD_LIMIT};

verus! {

/// A fixed-point column-major matrix.
#[derive(Clone, Copy, Debug, PartialEq, Eq, Structural)]
pub struct Mat4 {
    pub c0r0: i64,
    pub c0r1: i64,
    pub c0r2: i64,
    pub c0r3: i64,
    pub c1r0: i64,
    pub c1r1: i64,
    pub c1r2: i64,
    pub c1r3: i64,
    pub c2r0: i64,
    pub c2r1: i64,
    pub c2r2: i64,
    pub c2r3: i64,
    pub c3r0: i64,
    pub c3r1: i64,
    pub c3r2: i64,
    pub c3r3: i64,
}

/// Mathematical model of a matrix: sixteen unbounded integers.
pub struct M4 {
    pub c0r0: int,
    pub c0r1: int,
    pub c0r2: int,
    pub c0r3: int,
    pub c1r0: int,
    pub c1r1: int,
    pub c1r2: int,
    pub c1r3: int,
    pub c2r0: int,
    pub c2r1: int,
    pub c2r2: int,
    pub c2r3: int,
    pub c3r0: int,
    pub c3r1: int,
    pub c3r2: int,
    pub c3r3: int,
}

impl View for Mat4 {
    type V = M4;

    open spec fn view(&self) -> M4 {
        M4 {
            c0r0: self.c0r0 as int,
            c0r1: self.c0r1 as int,
            c0r2: self.c0r2 as int,
            c0r3: self.c0r3 as int,
            c1r0: self.c1r0 as int,
            c1r1: self.c1r1 as int,
            c1r2: self.c1r2 as int,
            c1r3: self.c1r3 as int,
            c2r0: self.c2r0 as int,
            c2r1: self.c2r1 as int,
            c2r2: self.c2r2 as int,
            c2r3: self.c2r3 as int,
            c3r0: self.c3r0 as int,
            c3r1: self.c3r1 as int,
            c3r2: self.c3r2 as int,
            c3r3: self.c3r3 as int,
        }
    }
}

/// All sixteen entries within magnitude `b`.
pub open spec fn m4_bounded(m: M4, b: int) -> bool {
    &&& -b <= m.c0r0 <= b
    &&& -b <= m.c0r1 <= b
    &&& -b <= m.c0r2 <= b
    &&& -b <= m.c0r3 <= b
    &&& -b <= m.c1r0 <= b
    &&& -b <= m.c1r1 <= b
    &&& -b <= m.c1r2 <= b
    &&& -b <= m.c1r3 <= b
    &&& -b <= m.c2r0 <= b
    &&& -b <= m.c2r1 <= b
    &&& -b <= m.c2r2 <= b
    &&& -b <= m.c2r3 <= b
    &&& -b <= m.c3r0 <= b
    &&& -b <= m.c3r1 <= b
    &&& -b <= m.c3r2 <= b
    &&& -b <= m.c3r3 <= b
}

/// One product entry: the four-term inner product rescaled by one
/// factor of [`SCALE`].
pub open spec fn e4(a0: int, b0: int, a1: int, b1: int, a2: int, b2: int, a3: int, b3: int) -> int {
    divt(a0 * b0 + a1 * b1 + a2 * b2 + a3 * b3, SCALE as int)
}

/// The fixed-point matrix product.
pub open spec fn mat_mul(a: M4, b: M4) -> M4 {
    M4 {
        c0r0: e4(a.c0r0, b.c0r0, a.c1r0, b.c0r1, a.c2r0, b.c0r2, a.c3r0, b.c0r3),
        c0r1: e4(a.c0r1, b.c0r0, a.c1r1, b.c0r1, a.c2r1, b.c0r2, a.c3r1, b.c0r3),
        c0r2: e4(a.c0r2, b.c0r0, a.c1r2, b.c0r1, a.c2r2, b.c0r2, a.c3r2, b.c0r3),
        c0r3: e4(a.c0r3, b.c0r0, a.c1r3, b.c0r1, a.c2r3, b.c0r2, a.c3r3, b.c0r3),
        c1r0: e4(a.c0r0, b.c1r0, a.c1r0, b.c1r1, a.c2r0, b.c1r2, a.c3r0, b.c1r3),
        c1r1: e4(a.c0r1, b.c1r0, a.c1r1, b.c1r1, a.c2r1, b.c1r2, a.c3r1, b.c1r3),
        c1r2: e4(a.c0r2, b.c1r0, a.c1r2, b.c1r1, a.c2r2, b.c1r2, a.c3r2, b.c1r3),
        c1r3: e4(a.c0r3, b.c1r0, a.c1r3, b.c1r1, a.c2r3, b.c1r2, a.c3r3, b.c1r3),
        c2r0: e4(a.c0r0, b.c2r0, a.c1r0, b.c2r1, a.c2r0, b.c2r2, a.c3r0, b.c2r3),
        c2r1: e4(a.c0r1, b.c2r0, a.c1r1, b.c2r1, a.c2r1, b.c2r2, a.c3r1, b.c2r3),
        c2r2: e4(a.c0r2, b.c2r0, a.c1r2, b.c2r1, a.c2r2, b.c2r2, a.c3r2, b.c2r3),
        c2r3: e4(a.c0r3, b.c2r0, a.c1r3, b.c2r1, a.c2r3, b.c2r2, a.c3r3, b.c2r3),
        c3r0: e4(a.c0r0, b.c3r0, a.c1r0, b.c3r1, a.c2r0, b.c3r2, a.c3r0, b.c3r3),
        c3r1: e4(a.c0r1, b.c3r0, a.c1r1, b.c3r1, a.c2r1, b.c3r2, a.c3r1, b.c3r3),
        c3r2: e4(a.c0r2, b.c3r0, a.c1r2, b.c3r1, a.c2r2, b.c3r2, a.c3r2, b.c3r3),
        c3r3: e4(a.c0r3, b.c3r0, a.c1r3, b.c3r1, a.c2r3, b.c3r2, a.c3r3, b.c3r3),
    }
}

/// The fixed-point identity.
pub open spec fn m4_identity() -> M4 {
    M4 {
        c0r0: SCALE as int,
        c0r1: 0,
        c0r2: 0,
        c0r3: 0,
        c1r0: 0,
        c1r1: SCALE as int,
        c1r2: 0,
        c1r3: 0,
        c2r0: 0,
        c2r1: 0,
        c2r2: SCALE as int,
        c2r3: 0,
        c3r0: 0,
        c3r1: 0,
        c3r2: 0,
        c3r3: SCALE as int,
    }
}

impl Mat4 {
    /// The identity matrix.
    pub fn identity() -> (r: Mat4)
        ensures
            r@ == m4_identity(),
    {
        Mat4 {
            c0r0: SCALE,
            c0r1: 0,
            c0r2: 0,
            c0r3: 0,
            c1r0: 0,
            c1r1: SCALE,
            c1r2: 0,
            c1r3: 0,
            c2r0: 0,
            c2r1: 0,
            c2r2: SCALE,
            c2r3: 0,
            c3r0: 0,
            c3r1: 0,
            c3r2: 0,
            c3r3: SCALE,
        }
    }

    /// The sixteen entries in column-major order, the layout the
    /// graphics interface consumes.
    pub fn to_cols_vec(&self) -> (r: Vec<i64>)
        ensures
            r@ == seq![
                self.c0r0, self.c0r1, self.c0r2, self.c0r3,
                self.c1r0, self.c1r1, self.c1r2, self.c1r3,
                self.c2r0, self.c2r1, self.c2r2, self.c2r3,
                self.c3r0, self.c3r1, self.c3r2, self.c3r3,
            ],
    {
        let mut v: Vec<i64> = Vec::new();
        v.push(self.c0r0);
        v.push(self.c0r1);
        v.push(self.c0r2);
        v.push(self.c0r3);
        v.push(self.c1r0);
        v.push(self.c1r1);
        v.push(self.c1r2);
        v.push(self.c1r3);
        v.push(self.c2r0);
        v.push(self.c2r1);
        v.push(self.c2r2);
        v.push(self.c2r3);
        v.push(self.c3r0);
        v.push(self.c3r1);
        v.push(self.c3r2);
        v.push(self.c3r3);
        proof {
            assert(v@ =~= seq![
                self.c0r0, self.c0r1, self.c0r2, self.c0r3,
                self.c1r0, self.c1r1, self.c1r2, self.c1r3,
                self.c2r0, self.c2r1, self.c2r2, self.c2r3,
                self.c3r0, self.c3r1, self.c3r2, self.c3r3,
            ]);
        }
        v
    }
}

/// The four products of one entry fit the bounds and the rescaled
/// entry fits the target range.
proof fn lemma_e4_fits(
    a0: int,
    b0: int,
    a1: int,
    b1: int,
    a2: int,
    b2: int,
    a3: int,
    b3: int,
    ab: int,
    bb: int,
    cb: int,
)
    requires
        0 <= ab,
        0 <= bb,
        -ab <= a0 <= ab,
        -ab <= a1 <= ab,
        -ab <= a2 <= ab,
        -ab <= a3 <= ab,
        -bb <= b0 <= bb,
        -bb <= b1 <= bb,
        -bb <= b2 <= bb,
        -bb <= b3 <= bb,
        4 * (ab * bb) <= cb * (SCALE as int),
        0 <= cb <= i64::MAX,
    ensures
        -(ab * bb) <= a0 * b0 <= ab * bb,
        -(ab * bb) <= a1 * b1 <= ab * bb,
        -(ab * bb) <= a2 * b2 <= ab * bb,
        -(ab * bb) <= a3 * b3 <= ab * bb,
        -cb <= e4(a0, b0, a1, b1, a2, b2, a3, b3) <= cb,
{
    lemma_mul_range(a0, b0, ab, bb);
    lemma_mul_range(a1, b1, ab, bb);
    lemma_mul_range(a2, b2, ab, bb);
    lemma_mul_range(a3, b3, ab, bb);
    lemma_divt_quotient_bound(a0 * b0 + a1 * b1 + a2 * b2 + a3 * b3, SCALE as int, cb);
}

/// One product entry, executable: the widened inner product divided
/// by [`SCALE`], rounded toward zero.
fn dot4_div(a0: i64, b0: i64, a1: i64, b1: i64, a2: i64, b2: i64, a3: i64, b3: i64) -> (r: i64)
    requires
        -COORD_LIMIT <= a0 <= COORD_LIMIT,
        -COORD_LIMIT <= a1 <= COORD_LIMIT,
        -COORD_LIMIT <= a2 <= COORD_LIMIT,
        -COORD_LIMIT <= a3 <= COORD_LIMIT,
        -COORD_LIMIT <= b0 <= COORD_LIMIT,
        -COORD_LIMIT <= b1 <= COORD_LIMIT,
        -COORD_LIMIT <= b2 <= COORD_LIMIT,
        -COORD_LIMIT <= b3 <= COORD_LIMIT,
        i64::MIN < e4(a0 as int, b0 as int, a1 as int, b1 as int, a2 as int, b2 as int, a3 as int,
            b3 as int) <= i64::MAX,
    ensures
        r == e4(a0 as int, b0 as int, a1 as int, b1 as int, a2 as int, b2 as int, a3 as int,
            b3 as int),
{
    proof {
        lemma_mul_range(a0 as int, b0 as int, COORD_LIMIT as int, COORD_LIMIT as int);
        lemma_mul_range(a1 as int, b1 as int, COORD_LIMIT as int, COORD_LIMIT as int);
        lemma_mul_range(a2 as int, b2 as int, COORD_LIMIT as int, COORD_LIMIT as int);
        lemma_mul_range(a3 as int, b3 as int, COORD_LIMIT as int, COORD_LIMIT as int);
        lemma_mul_range(COORD_LIMIT as int, COORD_LIMIT as int, COORD_LIMIT as int,
            COORD_LIMIT as int);
    }
    let s: i128 = (a0 as i128) * (b0 as i128) + (a1 as i128) * (b1 as i128) + (a2 as i128) * (
    b2 as i128) + (a3 as i128) * (b3 as i128);
    let q: i128 = crate::fixed::div_wide(s, SCALE as i128);
    q as i64
}

/// The fixed-point matrix product, executable.  The ghost bounds
/// `ab` and `bb` cover the factors' entries; every product entry is
/// then within `cb`.
pub(crate) fn mat_mul_x(a: &Mat4, b: &Mat4, Ghost(ab): Ghost<int>, Ghost(bb): Ghost<int>, Ghost(
    cb,
): Ghost<int>) -> (r: Mat4)
    requires
        0 <= ab <= COORD_LIMIT,
        0 <= bb <= COORD_LIMIT,
        m4_bounded(a@, ab),
        m4_bounded(b@, bb),
        4 * (ab * bb) <= cb * (SCALE as int),
        0 <= cb <= i64::MAX,
    ensures
        r@ == mat_mul(a@, b@),
        m4_bounded(r@, cb),
{
    proof {
        lemma_e4_fits(a.c0r0 as int, b.c0r0 as int, a.c1r0 as int, b.c0r1 as int, a.c2r0 as int,
            b.c0r2 as int, a.c3r0 as int, b.c0r3 as int, ab, bb, cb);
        lemma_e4_fits(a.c0r1 as int, b.c0r0 as int, a.c1r1 as int, b.c0r1 as int, a.c2r1 as int,
            b.c0r2 as int, a.c3r1 as int, b.c0r3 as int, ab, bb, cb);
        lemma_e4_fits(a.c0r2 as int, b.c0r0 as int, a.c1r2 as int, b.c0r1 as int, a.c2r2 as int,
            b.c0r2 as int, a.c3r2 as int, b.c0r3 as int, ab, bb, cb);
        lemma_e4_fits(a.c0r3 as int, b.c0r0 as int, a.c1r3 as int, b.c0r1 as int, a.c2r3 as int,
            b.c0r2 as int, a.c3r3 as int, b.c0r3 as int, ab, bb, cb);
        lemma_e4_fits(a.c0r0 as int, b.c1r0 as int, a.c1r0 as int, b.c1r1 as int, a.c2r0 as int,
            b.c1r2 as int, a.c3r0 as int, b.c1r3 as int, ab, bb, cb);
        lemma_e4_fits(a.c0r1 as int, b.c1r0 as int, a.c1r1 as int, b.c1r1 as int, a.c2r1 as int,
            b.c1r2 as int, a.c3r1 as int, b.c1r3 as int, ab, bb, cb);
        lemma_e4_fits(a.c0r2 as int, b.c1r0 as int, a.c1r2 as int, b.c1r1 as int, a.c2r2 as int,
            b.c1r2 as int, a.c3r2 as int, b.c1r3 as int, ab, bb, cb);
        lemma_e4_fits(a.c0r3 as int, b.c1r0 as int, a.c1r3 as int, b.c1r1 as int, a.c2r3 as int,
            b.c1r2 as int, a.c3r3 as int, b.c1r3 as int, ab, bb, cb);
        lemma_e4_fits(a.c0r0 as int, b.c2r0 as int, a.c1r0 as int, b.c2r1 as int, a.c2r0 as int,
            b.c2r2 as int, a.c3r0 as int, b.c2r3 as int, ab, bb, cb);
        lemma_e4_fits(a.c0r1 as int, b.c2r0 as int, a.c1r1 as int, b.c2r1 as int, a.c2r1 as int,
            b.c2r2 as int, a.c3r1 as int, b.c2r3 as int, ab, bb, cb);
        lemma_e4_fits(a.c0r2 as int, b.c2r0 as int, a.c1r2 as int, b.c2r1 as int, a.c2r2 as int,
            b.c2r2 as int, a.c3r2 as int, b.c2r3 as int, ab, bb, cb);
        lemma_e4_fits(a.c0r3 as int, b.c2r0 as int, a.c1r3 as int, b.c2r1 as int, a.c2r3 as int,
            b.c2r2 as int, a.c3r3 as int, b.c2r3 as int, ab, bb, cb);
        lemma_e4_fits(a.c0r0 as int, b.c3r0 as int, a.c1r0 as int, b.c3r1 as int, a.c2r0 as int,
            b.c3r2 as int, a.c3r0 as int, b.c3r3 as int, ab, bb, cb);
        lemma_e4_fits(a.c0r1 as int, b.c3r0 as int, a.c1r1 as int, b.c3r1 as int, a.c2r1 as int,
            b.c3r2 as int, a.c3r1 as int, b.c3r3 as int, ab, bb, cb);
        lemma_e4_fits(a.c0r2 as int, b.c3r0 as int, a.c1r2 as int, b.c3r1 as int, a.c2r2 as int,
            b.c3r2 as int, a.c3r2 as int, b.c3r3 as int, ab, bb, cb);
        lemma_e4_fits(a.c0r3 as int, b.c3r0 as int, a.c1r3 as int, b.c3r1 as int, a.c2r3 as int,
            b.c3r2 as int, a.c3r3 as int, b.c3r3 as int, ab, bb, cb);
    }
    Mat4 {
        c0r0: dot4_div(a.c0r0, b.c0r0, a.c1r0, b.c0r1, a.c2r0, b.c0r2, a.c3r0, b.c0r3),
        c0r1: dot4_div(a.c0r1, b.c0r0, a.c1r1, b.c0r1, a.c2r1, b.c0r2, a.c3r1, b.c0r3),
        c0r2: dot4_div(a.c0r2, b.c0r0, a.c1r2, b.c0r1, a.c2r2, b.c0r2, a.c3r2, b.c0r3),
        c0r3: dot4_div(a.c0r3, b.c0r0, a.c1r3, b.c0r1, a.c2r3, b.c0r2, a.c3r3, b.c0r3),
        c1r0: dot4_div(a.c0r0, b.c1r0, a.c1r0, b.c1r1, a.c2r0, b.c1r2, a.c3r0, b.c1r3),
        c1r1: dot4_div(a.c0r1, b.c1r0, a.c1r1, b.c1r1, a.c2r1, b.c1r2, a.c3r1, b.c1r3),
        c1r2: dot4_div(a.c0r2, b.c1r0, a.c1r2, b.c1r1, a.c2r2, b.c1r2, a.c3r2, b.c1r3),
        c1r3: dot4_div(a.c0r3, b.c1r0, a.c1r3, b.c1r1, a.c2r3, b.c1r2, a.c3r3, b.c1r3),
        c2r0: dot4_div(a.c0r0, b.c2r0, a.c1r0, b.c2r1, a.c2r0, b.c2r2, a.c3r0, b.c2r3),
        c2r1: dot4_div(a.c0r1, b.c2r0, a.c1r1, b.c2r1, a.c2r1, b.c2r2, a.c3r1, b.c2r3),
        c2r2: dot4_div(a.c0r2, b.c2r0, a.c1r2, b.c2r1, a.c2r2, b.c2r2, a.c3r2, b.c2r3),
        c2r3: dot4_div(a.c0r3, b.c2r0, a.c1r3, b.c2r1, a.c2r3, b.c2r2, a.c3r3, b.c2r3),
        c3r0: dot4_div(a.c0r0, b.c3r0, a.c1r0, b.c3r1, a.c2r0, b.c3r2, a.c3r0, b.c3r3),
        c3r1: dot4_div(a.c0r1, b.c3r0, a.c1r1, b.c3r1, a.c2r1, b.c3r2, a.c3r1, b.c3r3),
        c3r2: dot4_div(a.c0r2, b.c3r0, a.c1r2, b.c3r1, a.c2r2, b.c3r2, a.c3r2, b.c3r3),
        c3r3: dot4_div(a.c0r3, b.c3r0, a.c1r3, b.c3r1, a.c2r3, b.c3r2, a.c3r3, b.c3r3),
    }
}

} // verus!
