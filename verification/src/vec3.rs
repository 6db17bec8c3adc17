//! Three-component fixed-point vectors.
//!
//! A `Vec3` carries coordinates in millionths (see [`crate::fixed`]).
//! The mathematical model of a vector is [`V3`], a triple of
//! unbounded integers; every executable operation is specified
//! exactly against the corresponding model function.

use vstd::prelude::*;
use crate::fixed::{absi, divt, sqrt_floor, SCALE};
use vstd::arithmetic::div_mod::{
    lemma_div_is_ordered, lemma_div_multiples_vanish, lemma_div_pos_is_pos,
};

verus! {

/// Largest coordinate magnitude the vector operations accept; wide
/// enough that sums of three or four coordinate products still fit
/// the 128-bit intermediates.
pub const COORD_LIMIT: i64 = 3_000_000_000_000_000_000;

/// Mathematical model of a vector: a triple of unbounded integers.
pub struct V3 {
    pub x: int,
    pub y: int,
    pub z: int,
}

/// A fixed-point vector of three coordinates, in millionths.
#[derive(Clone, Copy, Debug, PartialEq, Eq, Structural)]
pub struct Vec3 {
    pub x: i64,
    pub y: i64,
    pub z: i64,
}

impl View for Vec3 {
    type V = V3;

    open spec fn view(&self) -> V3 {
        V3 { x: self.x as int, y: self.y as int, z: self.z as int }
    }
}

pub open spec fn v3(x: int, y: int, z: int) -> V3 {
    V3 { x, y, z }
}

/// All three coordinates within magnitude `m`.
pub open spec fn v3_bounded(v: V3, m: int) -> bool {
    &&& -m <= v.x <= m
    &&& -m <= v.y <= m
    &&& -m <= v.z <= m
}

pub open spec fn v3_add(a: V3, b: V3) -> V3 {
    v3(a.x + b.x, a.y + b.y, a.z + b.z)
}

pub open spec fn v3_sub(a: V3, b: V3) -> V3 {
    v3(a.x - b.x, a.y - b.y, a.z - b.z)
}

/// Each coordinate multiplied by `num` and divided (toward zero) by
/// `den`: the fixed-point scaling primitive.
pub open spec fn v3_scale_div(v: V3, num: int, den: int) -> V3 {
    v3(divt(v.x * num, den), divt(v.y * num, den), divt(v.z * num, den))
}

/// Fixed-point cross product: exact integer determinants, each
/// rescaled by one factor of [`SCALE`].
pub open spec fn v3_cross(a: V3, b: V3) -> V3 {
    v3(
        divt(a.y * b.z - a.z * b.y, SCALE as int),
        divt(a.z * b.x - a.x * b.z, SCALE as int),
        divt(a.x * b.y - a.y * b.x, SCALE as int),
    )
}

/// Fixed-point dot product, rescaled by one factor of [`SCALE`].
pub open spec fn v3_dot(a: V3, b: V3) -> int {
    divt(a.x * b.x + a.y * b.y + a.z * b.z, SCALE as int)
}

/// Squared length in raw (unscaled) units of millionths squared.
pub open spec fn v3_norm2(v: V3) -> int {
    v.x * v.x + v.y * v.y + v.z * v.z
}

/// Fixed-point length: the integer square root of the squared length.
pub open spec fn v3_len(v: V3) -> int {
    sqrt_floor(v3_norm2(v))
}

/// Fixed-point unit vector in the direction of `v`; the zero vector
/// when `v` has no direction.
pub open spec fn v3_normalize(v: V3) -> V3 {
    if v3_len(v) == 0 {
        v3(0, 0, 0)
    } else {
        v3_scale_div(v, SCALE as int, v3_len(v))
    }
}

/// Product of two values inside symmetric ranges stays inside the
/// product range.
pub proof fn lemma_mul_range(x: int, y: int, m: int, n: int)
    by (nonlinear_arith)
    requires
        -m <= x <= m,
        -n <= y <= n,
    ensures
        -(m * n) <= x * y <= m * n,
{
}

/// A square is never negative.
pub proof fn lemma_square_nonneg(x: int)
    by (nonlinear_arith)
    ensures
        0 <= x * x,
{
}

impl Vec3 {
    /// Builds a vector from raw fixed-point coordinates.
    pub fn new(x: i64, y: i64, z: i64) -> (r: Vec3)
        ensures
            r@ == v3(x as int, y as int, z as int),
    {
        Vec3 { x, y, z }
    }

    /// The zero vector.
    pub fn zero() -> (r: Vec3)
        ensures
            r@ == v3(0, 0, 0),
    {
        Vec3 { x: 0, y: 0, z: 0 }
    }
}

/// Componentwise sum.
pub fn v3_add_x(a: &Vec3, b: &Vec3) -> (r: Vec3)
    requires
        i64::MIN <= a.x + b.x <= i64::MAX,
        i64::MIN <= a.y + b.y <= i64::MAX,
        i64::MIN <= a.z + b.z <= i64::MAX,
    ensures
        r@ == v3_add(a@, b@),
{
    Vec3 { x: a.x + b.x, y: a.y + b.y, z: a.z + b.z }
}

/// Componentwise difference.
pub fn v3_sub_x(a: &Vec3, b: &Vec3) -> (r: Vec3)
    requires
        i64::MIN <= a.x - b.x <= i64::MAX,
        i64::MIN <= a.y - b.y <= i64::MAX,
        i64::MIN <= a.z - b.z <= i64::MAX,
    ensures
        r@ == v3_sub(a@, b@),
{
    Vec3 { x: a.x - b.x, y: a.y - b.y, z: a.z - b.z }
}

/// Componentwise multiply-then-divide.
pub fn v3_scale_div_x(v: &Vec3, num: i64, den: i64) -> (r: Vec3)
    requires
        den != 0,
        i64::MIN < divt(v.x * num, den as int) <= i64::MAX,
        i64::MIN < divt(v.y * num, den as int) <= i64::MAX,
        i64::MIN < divt(v.z * num, den as int) <= i64::MAX,
    ensures
        r@ == v3_scale_div(v@, num as int, den as int),
{
    Vec3 {
        x: crate::fixed::mul_div(v.x, num, den),
        y: crate::fixed::mul_div(v.y, num, den),
        z: crate::fixed::mul_div(v.z, num, den),
    }
}

/// One cross-product coordinate: `(p * q - r * s) / d`, truncated.
fn det2_div(p: i64, q: i64, r: i64, s: i64, d: i64) -> (out: i64)
    requires
        d != 0,
        -COORD_LIMIT <= p <= COORD_LIMIT,
        -COORD_LIMIT <= q <= COORD_LIMIT,
        -COORD_LIMIT <= r <= COORD_LIMIT,
        -COORD_LIMIT <= s <= COORD_LIMIT,
        i64::MIN < divt(p * q - r * s, d as int) <= i64::MAX,
    ensures
        out == divt(p * q - r * s, d as int),
{
    proof {
        lemma_mul_range(p as int, q as int, COORD_LIMIT as int, COORD_LIMIT as int);
        lemma_mul_range(r as int, s as int, COORD_LIMIT as int, COORD_LIMIT as int);
        lemma_mul_range(COORD_LIMIT as int, COORD_LIMIT as int, COORD_LIMIT as int,
            COORD_LIMIT as int);
    }
    let pq: i128 = (p as i128) * (q as i128);
    let rs: i128 = (r as i128) * (s as i128);
    let diff: i128 = pq - rs;
    let q128: i128 = crate::fixed::div_wide(diff, d as i128);
    q128 as i64
}

/// Fixed-point cross product.
pub fn v3_cross_x(a: &Vec3, b: &Vec3) -> (r: Vec3)
    requires
        v3_bounded(a@, COORD_LIMIT as int),
        v3_bounded(b@, COORD_LIMIT as int),
        i64::MIN < divt(a.y * b.z - a.z * b.y, SCALE as int) <= i64::MAX,
        i64::MIN < divt(a.z * b.x - a.x * b.z, SCALE as int) <= i64::MAX,
        i64::MIN < divt(a.x * b.y - a.y * b.x, SCALE as int) <= i64::MAX,
    ensures
        r@ == v3_cross(a@, b@),
{
    Vec3 {
        x: det2_div(a.y, b.z, a.z, b.y, SCALE),
        y: det2_div(a.z, b.x, a.x, b.z, SCALE),
        z: det2_div(a.x, b.y, a.y, b.x, SCALE),
    }
}

/// Fixed-point dot product.
pub fn v3_dot_x(a: &Vec3, b: &Vec3) -> (r: i64)
    requires
        v3_bounded(a@, COORD_LIMIT as int),
        v3_bounded(b@, COORD_LIMIT as int),
        i64::MIN < v3_dot(a@, b@) <= i64::MAX,
    ensures
        r == v3_dot(a@, b@),
{
    proof {
        lemma_mul_range(a.x as int, b.x as int, COORD_LIMIT as int, COORD_LIMIT as int);
        lemma_mul_range(a.y as int, b.y as int, COORD_LIMIT as int, COORD_LIMIT as int);
        lemma_mul_range(a.z as int, b.z as int, COORD_LIMIT as int, COORD_LIMIT as int);
        lemma_mul_range(COORD_LIMIT as int, COORD_LIMIT as int, COORD_LIMIT as int,
            COORD_LIMIT as int);
    }
    let s: i128 = (a.x as i128) * (b.x as i128) + (a.y as i128) * (b.y as i128) + (a.z as i128)
        * (b.z as i128);
    let q: i128 = crate::fixed::div_wide(s, SCALE as i128);
    q as i64
}

/// Fixed-point length; never negative and within the 64-bit range
/// for bounded inputs.
pub fn v3_length(v: &Vec3) -> (r: i64)
    requires
        v3_bounded(v@, COORD_LIMIT as int),
    ensures
        r == v3_len(v@),
        0 <= r,
{
    proof {
        lemma_mul_range(v.x as int, v.x as int, COORD_LIMIT as int, COORD_LIMIT as int);
        lemma_mul_range(v.y as int, v.y as int, COORD_LIMIT as int, COORD_LIMIT as int);
        lemma_mul_range(v.z as int, v.z as int, COORD_LIMIT as int, COORD_LIMIT as int);
        lemma_mul_range(COORD_LIMIT as int, COORD_LIMIT as int, COORD_LIMIT as int,
            COORD_LIMIT as int);
        lemma_square_nonneg(v.x as int);
        lemma_square_nonneg(v.y as int);
        lemma_square_nonneg(v.z as int);
    }
    let n2: i128 = (v.x as i128) * (v.x as i128) + (v.y as i128) * (v.y as i128) + (v.z as i128)
        * (v.z as i128);
    let r: u128 = crate::fixed::isqrt(n2 as u128);
    proof {
        assert(r as int <= 0x7fff_ffff_ffff_ffff) by (nonlinear_arith)
            requires
                0 <= r,
                (r as int) * (r as int) <= 27_000_000_000_000_000_000_000_000_000_000_000_000,
        ;
    }
    r as i64
}

/// Each coordinate is bounded by the vector's length.
pub proof fn lemma_len_dominates_coord(v: V3)
    ensures
        absi(v.x) <= v3_len(v),
        absi(v.y) <= v3_len(v),
        absi(v.z) <= v3_len(v),
        v3_len(v) >= 0,
{
    lemma_square_nonneg(v.x);
    lemma_square_nonneg(v.y);
    lemma_square_nonneg(v.z);
    crate::fixed::lemma_sqrt_floor(v3_norm2(v));
    lemma_coord_le_sqrt(v.x, v3_norm2(v));
    lemma_coord_le_sqrt(v.y, v3_norm2(v));
    lemma_coord_le_sqrt(v.z, v3_norm2(v));
}

proof fn lemma_coord_le_sqrt(c: int, n2: int)
    requires
        n2 >= c * c,
        n2 >= 0,
    ensures
        absi(c) <= sqrt_floor(n2),
{
    if c >= 0 {
        assert(c * c < (c + 1) * (c + 1)) by (nonlinear_arith)
            requires
                c >= 0,
        ;
        crate::fixed::lemma_sqrt_unique(c * c, c);
        crate::fixed::lemma_sqrt_ordered(c * c, n2);
    } else {
        assert((-c) * (-c) == c * c && c * c < (-c + 1) * (-c + 1)) by (nonlinear_arith)
            requires
                c < 0,
        ;
        crate::fixed::lemma_sqrt_unique(c * c, -c);
        crate::fixed::lemma_sqrt_ordered(c * c, n2);
    }
}

/// The length of a componentwise-bounded vector is at most twice the
/// bound.
pub proof fn lemma_len_bounded(v: V3, m: int)
    requires
        0 <= m,
        v3_bounded(v, m),
    ensures
        0 <= v3_len(v) <= 2 * m,
{
    lemma_mul_range(v.x, v.x, m, m);
    lemma_mul_range(v.y, v.y, m, m);
    lemma_mul_range(v.z, v.z, m, m);
    lemma_square_nonneg(v.x);
    lemma_square_nonneg(v.y);
    lemma_square_nonneg(v.z);
    crate::fixed::lemma_sqrt_floor(v3_norm2(v));
    assert(3 * (m * m) < (2 * m + 1) * (2 * m + 1)) by (nonlinear_arith)
        requires
            0 <= m,
    ;
    crate::fixed::lemma_sqrt_ordered(v3_norm2(v), (2 * m + 1) * (2 * m + 1) - 1);
    assert((2 * m) * (2 * m) <= (2 * m + 1) * (2 * m + 1) - 1) by (nonlinear_arith)
        requires
            0 <= m,
    ;
    crate::fixed::lemma_sqrt_unique((2 * m + 1) * (2 * m + 1) - 1, 2 * m);
}

/// A coordinate scaled by `SCALE` and divided by a length that
/// bounds it stays within one `SCALE`.
proof fn lemma_normalize_coord(c: int, len: int)
    requires
        0 < len,
        absi(c) <= len,
    ensures
        -(SCALE as int) <= divt(c * (SCALE as int), len) <= SCALE as int,
{
    let s = SCALE as int;
    lemma_mul_range(c, s, len, s);
    if c >= 0 {
        assert(absi(c * s) == c * s) by (nonlinear_arith)
            requires
                c >= 0,
                s > 0,
        ;
    } else {
        assert(absi(c * s) == -(c * s)) by (nonlinear_arith)
            requires
                c < 0,
                s > 0,
                absi(c * s) == if c * s < 0 { -(c * s) } else { c * s },
        ;
    }
    lemma_div_is_ordered(absi(c * s), len * s, len);
    lemma_div_multiples_vanish(s, len);
    lemma_div_pos_is_pos(absi(c * s), len);
    assert(len * s == s * len) by (nonlinear_arith);
}

/// Multiplying both sides of an ordering by a nonnegative factor
/// keeps it.
proof fn lemma_mul_mono(c: int, x: int, y: int)
    by (nonlinear_arith)
    requires
        0 <= c,
        x <= y,
    ensures
        c * x <= c * y,
        x * c <= y * c,
{
}

/// An ordering of products with a positive common factor cancels.
proof fn lemma_le_cancel(x: int, y: int, p: int)
    by (nonlinear_arith)
    requires
        x * p <= y * p,
        0 < p,
    ensures
        x <= y,
{
}

/// The squared length of the unit direction of `d` is one squared
/// `SCALE`, up to a few parts per million: the division by the
/// integer length costs less than one step per coordinate.
proof fn lemma_normalize_norm2(d: V3)
    requires
        v3_len(d) >= SCALE as int,
    ensures
        v3_norm2(v3_normalize(d)) >= (SCALE as int) * (SCALE as int) - 7 * (SCALE as int),
        v3_norm2(v3_normalize(d)) <= (SCALE as int) * (SCALE as int) + 9 * (SCALE as int),
{
    let s = SCALE as int;
    let l = v3_len(d);
    let n2 = v3_norm2(d);
    lemma_square_nonneg(d.x);
    lemma_square_nonneg(d.y);
    lemma_square_nonneg(d.z);
    crate::fixed::lemma_sqrt_floor(n2);
    lemma_len_dominates_coord(d);
    assert((l + 1) * (l + 1) == l * l + 2 * l + 1) by (nonlinear_arith);
    let n = v3_normalize(d);
    let nn = v3_norm2(n);
    crate::fixed::lemma_divt_remainder(d.x * s, l);
    crate::fixed::lemma_divt_remainder(d.y * s, l);
    crate::fixed::lemma_divt_remainder(d.z * s, l);
    let rx = d.x * s - n.x * l;
    let ry = d.y * s - n.y * l;
    let rz = d.z * s - n.z * l;
    // Squared remainder identity, one coordinate at a time.
    assert(n.x * l * (n.x * l) == d.x * s * (d.x * s) - 2 * ((d.x * s) * rx) + rx * rx
        && n.y * l * (n.y * l) == d.y * s * (d.y * s) - 2 * ((d.y * s) * ry) + ry * ry
        && n.z * l * (n.z * l) == d.z * s * (d.z * s) - 2 * ((d.z * s) * rz) + rz * rz)
        by (nonlinear_arith)
        requires
            n.x * l == d.x * s - rx,
            n.y * l == d.y * s - ry,
            n.z * l == d.z * s - rz,
    ;
    // Summed forms of both sides, distributed one square at a time.
    let qx = n.x * n.x;
    let qy = n.y * n.y;
    let qz = n.z * n.z;
    assert((qx + qy + qz) * (l * l) == qx * (l * l) + qy * (l * l) + qz * (l * l))
        by (nonlinear_arith);
    assert(n.x * n.x * (l * l) == n.x * l * (n.x * l) && n.y * n.y * (l * l) == n.y * l * (n.y * l)
        && n.z * n.z * (l * l) == n.z * l * (n.z * l)) by (nonlinear_arith);
    assert(nn * (l * l) == n.x * l * (n.x * l) + n.y * l * (n.y * l) + n.z * l * (n.z * l));
    let px = d.x * d.x;
    let py = d.y * d.y;
    let pz = d.z * d.z;
    assert((px + py + pz) * (s * s) == px * (s * s) + py * (s * s) + pz * (s * s))
        by (nonlinear_arith);
    assert(d.x * d.x * (s * s) == d.x * s * (d.x * s) && d.y * d.y * (s * s) == d.y * s * (d.y * s)
        && d.z * d.z * (s * s) == d.z * s * (d.z * s)) by (nonlinear_arith);
    assert(n2 * (s * s) == d.x * s * (d.x * s) + d.y * s * (d.y * s) + d.z * s * (d.z * s));
    // Bounds on the error terms.
    lemma_mul_range(d.x, s, l, s);
    lemma_mul_range(d.y, s, l, s);
    lemma_mul_range(d.z, s, l, s);
    lemma_mul_range(d.x * s, rx, l * s, l);
    lemma_mul_range(d.y * s, ry, l * s, l);
    lemma_mul_range(d.z * s, rz, l * s, l);
    lemma_mul_range(rx, rx, l, l);
    lemma_mul_range(ry, ry, l, l);
    lemma_mul_range(rz, rz, l, l);
    lemma_square_nonneg(rx);
    lemma_square_nonneg(ry);
    lemma_square_nonneg(rz);
    // Squeeze the scaled squared norm.
    lemma_mul_mono(s * s, l * l, n2);
    lemma_mul_mono(s * s, n2, l * l + 2 * l);
    assert((l * l) * (s * s) - 6 * ((l * s) * l) >= (s * s - 7 * s) * (l * l))
        by (nonlinear_arith)
        requires
            s >= 1,
            l >= 1,
    ;
    assert((l * l + 2 * l) * (s * s) + 6 * ((l * s) * l) + 3 * (l * l) <= (s * s + 9 * s) * (l
        * l)) by (nonlinear_arith)
        requires
            l >= s,
            s >= 3,
    ;
    assert(l * l > 0) by (nonlinear_arith)
        requires
            l > 0,
    ;
    lemma_le_cancel(s * s - 7 * s, nn, l * l);
    lemma_le_cancel(nn, s * s + 9 * s, l * l);
}

/// Rescaling a unit-length direction to a radius of at least one
/// unit yields a squared length within the squares of the radius
/// plus or minus the drift allowance.
proof fn lemma_scale_norm2(n: V3, mag: int)
    requires
        v3_bounded(n, SCALE as int),
        v3_norm2(n) >= (SCALE as int) * (SCALE as int) - 7 * (SCALE as int),
        v3_norm2(n) <= (SCALE as int) * (SCALE as int) + 9 * (SCALE as int),
        mag >= SCALE as int,
    ensures
        v3_norm2(v3_scale_div(n, mag, SCALE as int)) >= (mag - radius_drift(mag)) * (mag
            - radius_drift(mag)),
        v3_norm2(v3_scale_div(n, mag, SCALE as int)) <= (mag + radius_drift(mag)) * (mag
            + radius_drift(mag)),
        0 <= radius_drift(mag) <= mag,
{
    let s = SCALE as int;
    let nn = v3_norm2(n);
    let w = v3_scale_div(n, mag, s);
    let nw = v3_norm2(w);
    let e = radius_drift(mag);
    let k = mag / s;
    let m = mag % s;
    vstd::arithmetic::div_mod::lemma_fundamental_div_mod(mag, s);
    vstd::arithmetic::div_mod::lemma_mod_division_less_than_divisor(mag, s);
    assert(k >= 1 && e == 20 + 8 * k && 28 * k <= s * k && e <= 28 * k && e <= mag)
        by (nonlinear_arith)
        requires
            mag == s * k + m,
            0 <= m < s,
            mag >= s,
            s == 1_000_000,
            e == 20 + 8 * (mag / s),
            k == mag / s,
    ;
    crate::fixed::lemma_divt_remainder(n.x * mag, s);
    crate::fixed::lemma_divt_remainder(n.y * mag, s);
    crate::fixed::lemma_divt_remainder(n.z * mag, s);
    let ox = n.x * mag - w.x * s;
    let oy = n.y * mag - w.y * s;
    let oz = n.z * mag - w.z * s;
    assert(w.x * s * (w.x * s) == n.x * mag * (n.x * mag) - 2 * ((n.x * mag) * ox) + ox * ox
        && w.y * s * (w.y * s) == n.y * mag * (n.y * mag) - 2 * ((n.y * mag) * oy) + oy * oy
        && w.z * s * (w.z * s) == n.z * mag * (n.z * mag) - 2 * ((n.z * mag) * oz) + oz * oz)
        by (nonlinear_arith)
        requires
            w.x * s == n.x * mag - ox,
            w.y * s == n.y * mag - oy,
            w.z * s == n.z * mag - oz,
    ;
    let ux = w.x * w.x;
    let uy = w.y * w.y;
    let uz = w.z * w.z;
    assert((ux + uy + uz) * (s * s) == ux * (s * s) + uy * (s * s) + uz * (s * s))
        by (nonlinear_arith);
    assert(w.x * w.x * (s * s) == w.x * s * (w.x * s) && w.y * w.y * (s * s) == w.y * s * (w.y * s)
        && w.z * w.z * (s * s) == w.z * s * (w.z * s)) by (nonlinear_arith);
    assert(nw * (s * s) == w.x * s * (w.x * s) + w.y * s * (w.y * s) + w.z * s * (w.z * s));
    let tx = n.x * n.x;
    let ty = n.y * n.y;
    let tz = n.z * n.z;
    assert((tx + ty + tz) * (mag * mag) == tx * (mag * mag) + ty * (mag * mag) + tz * (mag * mag))
        by (nonlinear_arith);
    assert(n.x * n.x * (mag * mag) == n.x * mag * (n.x * mag) && n.y * n.y * (mag * mag) == n.y
        * mag * (n.y * mag) && n.z * n.z * (mag * mag) == n.z * mag * (n.z * mag))
        by (nonlinear_arith);
    assert(nn * (mag * mag) == n.x * mag * (n.x * mag) + n.y * mag * (n.y * mag) + n.z * mag * (
    n.z * mag));
    lemma_mul_range(n.x, mag, s, mag);
    lemma_mul_range(n.y, mag, s, mag);
    lemma_mul_range(n.z, mag, s, mag);
    lemma_mul_range(n.x * mag, ox, s * mag, s);
    lemma_mul_range(n.y * mag, oy, s * mag, s);
    lemma_mul_range(n.z * mag, oz, s * mag, s);
    lemma_mul_range(ox, ox, s, s);
    lemma_mul_range(oy, oy, s, s);
    lemma_mul_range(oz, oz, s, s);
    lemma_square_nonneg(ox);
    lemma_square_nonneg(oy);
    lemma_square_nonneg(oz);
    lemma_square_nonneg(mag);
    lemma_mul_mono(mag * mag, s * s - 7 * s, nn);
    lemma_mul_mono(mag * mag, nn, s * s + 9 * s);
    // The drift allowance absorbs every error term.
    assert((s * s - 7 * s) * (mag * mag) - 6 * ((s * mag) * s) >= ((mag - e) * (mag - e)) * (s
        * s) && (s * s + 9 * s) * (mag * mag) + 6 * ((s * mag) * s) + 3 * (s * s) <= ((mag + e)
        * (mag + e)) * (s * s)) by (nonlinear_arith)
        requires
            mag == s * k + m,
            0 <= m < s,
            e == 20 + 8 * k,
            k >= 1,
            s == 1_000_000,
            mag >= s,
            e <= mag,
    ;
    assert(s * s > 0) by (nonlinear_arith)
        requires
            s > 0,
    ;
    assert(nw * (s * s) >= ((mag - e) * (mag - e)) * (s * s));
    assert(nw * (s * s) <= ((mag + e) * (mag + e)) * (s * s));
    lemma_le_cancel((mag - e) * (mag - e), nw, s * s);
    lemma_le_cancel(nw, (mag + e) * (mag + e), s * s);
}

/// The drift an orbit rescale may cost, in fixed-point steps: about
/// eight steps per unit of radius, plus a constant twenty.
pub open spec fn radius_drift(mag: int) -> int {
    20 + 8 * (mag / (SCALE as int))
}

/// Rescaling the unit direction of `d` back to the radius `mag`
/// yields a vector whose length is `mag` within [`radius_drift`]:
/// fewer than twenty-eight parts per million of the radius, for any
/// direction and radius of at least one unit.
pub proof fn lemma_rescale_length(d: V3, mag: int)
    requires
        v3_len(d) >= SCALE as int,
        mag >= SCALE as int,
    ensures
        mag - radius_drift(mag) <= v3_len(v3_scale_div(v3_normalize(d), mag, SCALE as int)),
        v3_len(v3_scale_div(v3_normalize(d), mag, SCALE as int)) <= mag + radius_drift(mag),
        0 <= radius_drift(mag) <= mag,
{
    let s = SCALE as int;
    let l = v3_len(d);
    let n = v3_normalize(d);
    let e = radius_drift(mag);
    lemma_normalize_norm2(d);
    lemma_len_dominates_coord(d);
    lemma_normalize_coord(d.x, l);
    lemma_normalize_coord(d.y, l);
    lemma_normalize_coord(d.z, l);
    lemma_scale_norm2(n, mag);
    let w = v3_scale_div(n, mag, s);
    let nw = v3_norm2(w);
    lemma_square_nonneg(w.x);
    lemma_square_nonneg(w.y);
    lemma_square_nonneg(w.z);
    lemma_square_nonneg(mag - e);
    lemma_square_nonneg(mag + e);
    crate::fixed::lemma_sqrt_ordered((mag - e) * (mag - e), nw);
    crate::fixed::lemma_sqrt_ordered(nw, (mag + e) * (mag + e));
    assert((mag - e) * (mag - e) < (mag - e + 1) * (mag - e + 1) && (mag + e) * (mag + e) < (mag
        + e + 1) * (mag + e + 1)) by (nonlinear_arith)
        requires
            0 <= e <= mag,
    ;
    crate::fixed::lemma_sqrt_unique((mag - e) * (mag - e), mag - e);
    crate::fixed::lemma_sqrt_unique((mag + e) * (mag + e), mag + e);
}

/// Advancing by `p` along the unit direction of `f` shortens the
/// length by exactly `p`, within seven fixed-point steps, whenever
/// the step is at most one unit and the length clears it by a
/// twenty-five step margin.
pub proof fn lemma_advance_shortens_length(f: V3, p: int)
    requires
        1 <= p <= SCALE as int,
        v3_len(f) >= p + 25,
    ensures
        v3_len(f) - p - 7 <= v3_len(v3_sub(f, v3_scale_div(v3_normalize(f), p, SCALE as int))),
        v3_len(v3_sub(f, v3_scale_div(v3_normalize(f), p, SCALE as int))) <= v3_len(f) - p + 7,
{
    let s = SCALE as int;
    let l = v3_len(f);
    let m = l - p;
    let n2 = v3_norm2(f);
    let n = v3_normalize(f);
    let w = v3_scale_div(n, p, s);
    let g = v3_sub(f, w);
    let ng = v3_norm2(g);
    lemma_square_nonneg(f.x);
    lemma_square_nonneg(f.y);
    lemma_square_nonneg(f.z);
    crate::fixed::lemma_sqrt_floor(n2);
    lemma_len_dominates_coord(f);
    assert((l + 1) * (l + 1) == l * l + 2 * l + 1) by (nonlinear_arith);
    crate::fixed::lemma_divt_remainder(f.x * s, l);
    crate::fixed::lemma_divt_remainder(f.y * s, l);
    crate::fixed::lemma_divt_remainder(f.z * s, l);
    let rx = f.x * s - n.x * l;
    let ry = f.y * s - n.y * l;
    let rz = f.z * s - n.z * l;
    crate::fixed::lemma_divt_remainder(n.x * p, s);
    crate::fixed::lemma_divt_remainder(n.y * p, s);
    crate::fixed::lemma_divt_remainder(n.z * p, s);
    let ox = n.x * p - w.x * s;
    let oy = n.y * p - w.y * s;
    let oz = n.z * p - w.z * s;
    let cx = rx * p + ox * l;
    let cy = ry * p + oy * l;
    let cz = rz * p + oz * l;
    // The step leaves each coordinate at its shortened value plus a
    // small residue.
    assert(w.x * (l * s) == (n.x * l) * p - ox * l) by (nonlinear_arith)
        requires
            w.x * s == n.x * p - ox,
    ;
    assert((n.x * l) * p == (f.x * s) * p - rx * p) by (nonlinear_arith)
        requires
            n.x * l == f.x * s - rx,
    ;
    assert(g.x * (l * s) == f.x * (l * s) - w.x * (l * s)) by (nonlinear_arith)
        requires
            g.x == f.x - w.x,
    ;
    assert(f.x * (l * s) - (f.x * s) * p == f.x * (s * m)) by (nonlinear_arith)
        requires
            m == l - p,
    ;
    assert(g.x * (l * s) == f.x * (s * m) + cx);
    assert(w.y * (l * s) == (n.y * l) * p - oy * l) by (nonlinear_arith)
        requires
            w.y * s == n.y * p - oy,
    ;
    assert((n.y * l) * p == (f.y * s) * p - ry * p) by (nonlinear_arith)
        requires
            n.y * l == f.y * s - ry,
    ;
    assert(g.y * (l * s) == f.y * (l * s) - w.y * (l * s)) by (nonlinear_arith)
        requires
            g.y == f.y - w.y,
    ;
    assert(f.y * (l * s) - (f.y * s) * p == f.y * (s * m)) by (nonlinear_arith)
        requires
            m == l - p,
    ;
    assert(g.y * (l * s) == f.y * (s * m) + cy);
    assert(w.z * (l * s) == (n.z * l) * p - oz * l) by (nonlinear_arith)
        requires
            w.z * s == n.z * p - oz,
    ;
    assert((n.z * l) * p == (f.z * s) * p - rz * p) by (nonlinear_arith)
        requires
            n.z * l == f.z * s - rz,
    ;
    assert(g.z * (l * s) == f.z * (l * s) - w.z * (l * s)) by (nonlinear_arith)
        requires
            g.z == f.z - w.z,
    ;
    assert(f.z * (l * s) - (f.z * s) * p == f.z * (s * m)) by (nonlinear_arith)
        requires
            m == l - p,
    ;
    assert(g.z * (l * s) == f.z * (s * m) + cz);
    // Squares of both sides.
    assert(g.x * (l * s) * (g.x * (l * s)) == f.x * (s * m) * (f.x * (s * m)) + 2 * ((f.x * (s
        * m)) * cx) + cx * cx && g.y * (l * s) * (g.y * (l * s)) == f.y * (s * m) * (f.y * (s * m))
        + 2 * ((f.y * (s * m)) * cy) + cy * cy && g.z * (l * s) * (g.z * (l * s)) == f.z * (s * m)
        * (f.z * (s * m)) + 2 * ((f.z * (s * m)) * cz) + cz * cz) by (nonlinear_arith)
        requires
            g.x * (l * s) == f.x * (s * m) + cx,
            g.y * (l * s) == f.y * (s * m) + cy,
            g.z * (l * s) == f.z * (s * m) + cz,
    ;
    // Summed forms.
    let ax = g.x * g.x;
    let ay = g.y * g.y;
    let az = g.z * g.z;
    assert((ax + ay + az) * ((l * s) * (l * s)) == ax * ((l * s) * (l * s)) + ay * ((l * s) * (l
        * s)) + az * ((l * s) * (l * s))) by (nonlinear_arith);
    assert(g.x * g.x * ((l * s) * (l * s)) == g.x * (l * s) * (g.x * (l * s)) && g.y * g.y * ((l
        * s) * (l * s)) == g.y * (l * s) * (g.y * (l * s)) && g.z * g.z * ((l * s) * (l * s))
        == g.z * (l * s) * (g.z * (l * s))) by (nonlinear_arith);
    assert(ng * ((l * s) * (l * s)) == g.x * (l * s) * (g.x * (l * s)) + g.y * (l * s) * (g.y * (l
        * s)) + g.z * (l * s) * (g.z * (l * s)));
    let bx = f.x * f.x;
    let by = f.y * f.y;
    let bz = f.z * f.z;
    assert((bx + by + bz) * ((s * m) * (s * m)) == bx * ((s * m) * (s * m)) + by * ((s * m) * (s
        * m)) + bz * ((s * m) * (s * m))) by (nonlinear_arith);
    assert(f.x * f.x * ((s * m) * (s * m)) == f.x * (s * m) * (f.x * (s * m)) && f.y * f.y * ((s
        * m) * (s * m)) == f.y * (s * m) * (f.y * (s * m)) && f.z * f.z * ((s * m) * (s * m))
        == f.z * (s * m) * (f.z * (s * m))) by (nonlinear_arith);
    assert(n2 * ((s * m) * (s * m)) == f.x * (s * m) * (f.x * (s * m)) + f.y * (s * m) * (f.y * (s
        * m)) + f.z * (s * m) * (f.z * (s * m)));
    // Bounds on the residues and cross terms.
    assert(s * l == l * s) by (nonlinear_arith);
    lemma_mul_range(rx, p, l, s);
    lemma_mul_range(ry, p, l, s);
    lemma_mul_range(rz, p, l, s);
    lemma_mul_range(ox, l, s, l);
    lemma_mul_range(oy, l, s, l);
    lemma_mul_range(oz, l, s, l);
    assert(-2 * (l * s) <= cx <= 2 * (l * s));
    assert(-2 * (l * s) <= cy <= 2 * (l * s));
    assert(-2 * (l * s) <= cz <= 2 * (l * s));
    lemma_mul_range(f.x, s * m, l, s * m);
    lemma_mul_range(f.y, s * m, l, s * m);
    lemma_mul_range(f.z, s * m, l, s * m);
    lemma_mul_range(f.x * (s * m), cx, l * (s * m), 2 * (l * s));
    lemma_mul_range(f.y * (s * m), cy, l * (s * m), 2 * (l * s));
    lemma_mul_range(f.z * (s * m), cz, l * (s * m), 2 * (l * s));
    lemma_mul_range(cx, cx, 2 * (l * s), 2 * (l * s));
    lemma_mul_range(cy, cy, 2 * (l * s), 2 * (l * s));
    lemma_mul_range(cz, cz, 2 * (l * s), 2 * (l * s));
    lemma_square_nonneg(cx);
    lemma_square_nonneg(cy);
    lemma_square_nonneg(cz);
    lemma_square_nonneg(s * m);
    lemma_mul_mono((s * m) * (s * m), l * l, n2);
    lemma_mul_mono((s * m) * (s * m), n2, l * l + 2 * l);
    // The seven-step allowance absorbs every residue.
    assert((l * l) * ((s * m) * (s * m)) - 6 * ((l * (s * m)) * (2 * (l * s))) >= ((m - 7) * (m
        - 7)) * ((l * s) * (l * s)) && (l * l + 2 * l) * ((s * m) * (s * m)) + 6 * ((l * (s * m))
        * (2 * (l * s))) + 3 * ((2 * (l * s)) * (2 * (l * s))) <= ((m + 7) * (m + 7)) * ((l * s)
        * (l * s))) by (nonlinear_arith)
        requires
            m == l - p,
            1 <= p <= s,
            l >= p + 25,
            s == 1_000_000,
    ;
    assert((l * s) * (l * s) > 0) by (nonlinear_arith)
        requires
            l > 0,
            s > 0,
    ;
    lemma_le_cancel((m - 7) * (m - 7), ng, (l * s) * (l * s));
    lemma_le_cancel(ng, (m + 7) * (m + 7), (l * s) * (l * s));
    lemma_square_nonneg(m - 7);
    lemma_square_nonneg(m + 7);
    lemma_square_nonneg(g.x);
    lemma_square_nonneg(g.y);
    lemma_square_nonneg(g.z);
    crate::fixed::lemma_sqrt_ordered((m - 7) * (m - 7), ng);
    crate::fixed::lemma_sqrt_ordered(ng, (m + 7) * (m + 7));
    assert((m - 7) * (m - 7) < (m - 7 + 1) * (m - 7 + 1) && (m + 7) * (m + 7) < (m + 7 + 1) * (m
        + 7 + 1)) by (nonlinear_arith)
        requires
            m >= 25,
    ;
    crate::fixed::lemma_sqrt_unique((m - 7) * (m - 7), m - 7);
    crate::fixed::lemma_sqrt_unique((m + 7) * (m + 7), m + 7);
}

/// Fixed-point unit vector in the direction of `v`.
pub fn v3_normalize_x(v: &Vec3) -> (r: Vec3)
    requires
        v3_bounded(v@, COORD_LIMIT as int),
    ensures
        r@ == v3_normalize(v@),
        v3_bounded(r@, SCALE as int),
{
    let len: i64 = v3_length(v);
    if len == 0 {
        Vec3 { x: 0, y: 0, z: 0 }
    } else {
        proof {
            lemma_len_dominates_coord(v@);
            lemma_normalize_coord(v.x as int, len as int);
            lemma_normalize_coord(v.y as int, len as int);
            lemma_normalize_coord(v.z as int, len as int);
        }
        v3_scale_div_x(v, SCALE, len)
    }
}

} // verus!
