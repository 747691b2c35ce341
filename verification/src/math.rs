//! The rotation and projection that take a vertex to the screen.
//!
//! Coordinates, the scale and the distance are counted in thousandths. The
//! crate evaluates no trigonometric function: an angle of rotation enters as
//! a [`Turn`], its cosine and sine in millionths, which the caller supplies.

use vstd::prelude::*;
use crate::fixed::{
    divide, in_range, lemma_toward_zero_bound, magnitude, quotient, toward_zero, LIMIT,
};

verus! {

/// One, as a cosine or a sine: these are counted in millionths.
pub const ONE: i64 = 1_000_000;

/// An angle of rotation, given by its cosine and its sine in millionths.
#[derive(Clone, Copy, Debug, PartialEq, Eq)]
pub struct Turn {
    pub cos: i64,
    pub sin: i64,
}

impl Turn {
    /// Neither the cosine nor the sine exceeds one in magnitude.
    pub open spec fn wf(&self) -> bool {
        -ONE <= self.cos <= ONE && -ONE <= self.sin <= ONE
    }

    /// The squared length of the pair of cosine and sine, times `ONE * ONE`.
    pub open spec fn norm(&self) -> int {
        self.cos * self.cos + self.sin * self.sin
    }

    /// The cosine and the sine lie exactly on the unit circle.
    pub open spec fn is_unit(&self) -> bool {
        self.norm() == ONE * ONE
    }

    /// How far the pair of cosine and sine is from the unit circle: the
    /// magnitude of `cos * cos + sin * sin - ONE * ONE`. A cosine and a sine
    /// that were rounded to millionths have a defect below `ONE + ONE`.
    pub open spec fn defect(&self) -> int {
        magnitude(self.norm() - ONE * ONE)
    }

    /// The angle zero.
    pub fn zero() -> (turn: Turn)
        ensures
            turn == (Turn { cos: ONE, sin: 0 }),
            turn.wf(),
    {
        Turn { cos: ONE, sin: 0 }
    }

    /// Says whether `self` is well formed.
    pub fn check(&self) -> (r: bool)
        ensures
            r == self.wf(),
    {
        -ONE <= self.cos && self.cos <= ONE && -ONE <= self.sin && self.sin <= ONE
    }
}

/// The point with the coordinates `x`, `y` and `z`.
pub fn transform(x: i64, y: i64, z: i64) -> (p: [i64; 3])
    ensures
        p == [x, y, z],
{
    [x, y, z]
}

/// `ONE` times the exact x coordinate of a point after the rotation about the y axis.
pub open spec fn spun_x(x: int, z: int, angle_y: Turn) -> int {
    x * angle_y.cos - z * angle_y.sin
}

/// `ONE` times the exact z coordinate of a point after the rotation about the y axis.
pub open spec fn spun_depth(x: int, z: int, angle_y: Turn) -> int {
    x * angle_y.sin + z * angle_y.cos
}

/// `ONE * ONE` times the exact y coordinate of a point after both rotations.
pub open spec fn spun_y(x: int, y: int, z: int, angle_x: Turn, angle_y: Turn) -> int {
    y * angle_x.cos * ONE - spun_depth(x, z, angle_y) * angle_x.sin
}

/// `ONE * ONE` times the exact z coordinate of a point after both rotations.
pub open spec fn spun_z(x: int, y: int, z: int, angle_x: Turn, angle_y: Turn) -> int {
    y * angle_x.sin * ONE + spun_depth(x, z, angle_y) * angle_x.cos
}

/// The x coordinate of the rotated point, rounded toward zero to a thousandth.
pub open spec fn rotated_x(x: int, z: int, angle_y: Turn) -> int {
    quotient(spun_x(x, z, angle_y), ONE as int)
}

/// The y coordinate of the rotated point, rounded toward zero to a thousandth.
pub open spec fn rotated_y(x: int, y: int, z: int, angle_x: Turn, angle_y: Turn) -> int {
    quotient(spun_y(x, y, z, angle_x, angle_y), ONE * ONE)
}

/// The z coordinate of the rotated point, rounded toward zero to a thousandth.
pub open spec fn rotated_z(x: int, y: int, z: int, angle_x: Turn, angle_y: Turn) -> int {
    quotient(spun_z(x, y, z, angle_x, angle_y), ONE * ONE)
}

/// Whether `v` is no larger in magnitude than a coordinate that [`rotate`]
/// returns can be: three times the limit of stored values.
pub open spec fn rotated_in_range(v: int) -> bool {
    -3 * LIMIT <= v <= 3 * LIMIT
}

/// A product is bounded by the product of the bounds of its factors.
proof fn lemma_product_bound(a: int, b: int, bound_a: int, bound_b: int)
    by (nonlinear_arith)
    requires
        -bound_a <= a <= bound_a,
        -bound_b <= b <= bound_b,
    ensures
        -(bound_a * bound_b) <= a * b <= bound_a * bound_b,
{
}

/// A quotient rounded toward zero, times the divisor, misses the numerator by
/// less than the divisor.
proof fn lemma_toward_zero_error(n: int, d: int)
    requires
        d > 0,
    ensures
        magnitude(d * toward_zero(n, d) - n) < d,
{
    let m = magnitude(n);
    vstd::arithmetic::div_mod::lemma_fundamental_div_mod(m, d);
    vstd::arithmetic::div_mod::lemma_mod_bound(m, d);
    assert(d * (-(m / d)) == -(d * (m / d))) by (nonlinear_arith);
}

/// Rotates the point `(x, y, z)` about the y axis by `angle_y`, then about
/// the x axis by `angle_x`.
///
/// With `c` and `s` for cosine and sine, the first rotation takes `x` to
/// `x * cy - z * sy` and `z` to `x * sy + z * cy`; the second takes `y` to
/// `y * cx - z * sx` and `z` to `y * sx + z * cx`. The three results are
/// computed exactly and rounded once, toward zero, to a thousandth.
pub fn rotate(x: i64, y: i64, z: i64, angle_x: Turn, angle_y: Turn) -> (p: [i64; 3])
    requires
        in_range(x as int),
        in_range(y as int),
        in_range(z as int),
        angle_x.wf(),
        angle_y.wf(),
    ensures
        p[0] == rotated_x(x as int, z as int, angle_y),
        p[1] == rotated_y(x as int, y as int, z as int, angle_x, angle_y),
        p[2] == rotated_z(x as int, y as int, z as int, angle_x, angle_y),
        rotated_in_range(p[0] as int),
        rotated_in_range(p[1] as int),
        rotated_in_range(p[2] as int),
{
    let one: i128 = ONE as i128;
    proof {
        lemma_product_bound(x as int, angle_y.cos as int, LIMIT as int, ONE as int);
        lemma_product_bound(z as int, angle_y.sin as int, LIMIT as int, ONE as int);
        lemma_product_bound(x as int, angle_y.sin as int, LIMIT as int, ONE as int);
        lemma_product_bound(z as int, angle_y.cos as int, LIMIT as int, ONE as int);
        lemma_product_bound(y as int, angle_x.cos as int, LIMIT as int, ONE as int);
        lemma_product_bound(y as int, angle_x.sin as int, LIMIT as int, ONE as int);
    }
    let x_rot_y: i128 = x as i128 * angle_y.cos as i128 - z as i128 * angle_y.sin as i128;
    let z_rot_y: i128 = x as i128 * angle_y.sin as i128 + z as i128 * angle_y.cos as i128;
    proof {
        lemma_product_bound(z_rot_y as int, angle_x.sin as int, 2 * LIMIT * ONE, ONE as int);
        lemma_product_bound(z_rot_y as int, angle_x.cos as int, 2 * LIMIT * ONE, ONE as int);
    }
    let y_rot_x: i128 = y as i128 * angle_x.cos as i128 * one - z_rot_y * angle_x.sin as i128;
    let z_rot_x: i128 = y as i128 * angle_x.sin as i128 * one + z_rot_y * angle_x.cos as i128;
    let px: i128 = divide(x_rot_y, one);
    let py: i128 = divide(y_rot_x, one * one);
    let pz: i128 = divide(z_rot_x, one * one);
    proof {
        lemma_toward_zero_bound(x_rot_y as int, ONE as int);
        lemma_toward_zero_bound(y_rot_x as int, ONE * ONE);
        lemma_toward_zero_bound(z_rot_x as int, ONE * ONE);
    }
    [px as i64, py as i64, pz as i64]
}

/// The offset from the centre of the screen at which the coordinate `v` of a
/// point at depth `z` appears: `v * scale / (z + distance)`, rounded toward zero.
pub open spec fn projected_offset(v: int, z: int, scale: int, distance: int) -> int {
    quotient(v * scale, z + distance)
}

/// Whether the point `(x, y, z)` has a place on the screen: its depth from
/// the eye, `z + distance`, is not zero, and both of its offsets from the
/// centre lie in the range of stored values.
pub open spec fn projects(x: int, y: int, z: int, scale: int, distance: int) -> bool {
    &&& z + distance != 0
    &&& in_range(projected_offset(x, z, scale, distance))
    &&& in_range(projected_offset(y, z, scale, distance))
}

/// Projects the point `(x, y, z)` to a screen `width` wide and `height` high.
///
/// The point is divided by its depth from the eye, `z + distance`, scaled by
/// `scale` and moved by half the size of the screen, so that the axis of
/// view meets the centre. A point without a place on the screen, see
/// [`projects`], has no projection.
pub fn project(
    x: i64,
    y: i64,
    z: i64,
    scale: i64,
    distance: i64,
    width: i64,
    height: i64,
) -> (p: Option<[i64; 2]>)
    ensures
        p.is_some() == projects(x as int, y as int, z as int, scale as int, distance as int),
        p matches Some(q) ==> q[0] == projected_offset(
            x as int,
            z as int,
            scale as int,
            distance as int,
        ) + quotient(width as int, 2) && q[1] == projected_offset(
            y as int,
            z as int,
            scale as int,
            distance as int,
        ) + quotient(height as int, 2),
{
    let depth: i128 = z as i128 + distance as i128;
    if depth == 0 {
        return None;
    }
    proof {
        lemma_product_bound(
            x as int,
            scale as int,
            0x8000_0000_0000_0000,
            0x8000_0000_0000_0000,
        );
        lemma_product_bound(
            y as int,
            scale as int,
            0x8000_0000_0000_0000,
            0x8000_0000_0000_0000,
        );
    }
    let x2d: i128 = divide(x as i128 * scale as i128, depth);
    let y2d: i128 = divide(y as i128 * scale as i128, depth);
    let limit: i128 = LIMIT as i128;
    if x2d < -limit || x2d > limit || y2d < -limit || y2d > limit {
        return None;
    }
    Some([x2d as i64 + width / 2, y2d as i64 + height / 2])
}

/// Rotating by the angle zero about both axes returns the point itself.
pub proof fn rotate_by_zero_is_identity(x: int, y: int, z: int)
    ensures
        rotated_x(x, z, Turn { cos: ONE, sin: 0 }) == x,
        rotated_y(x, y, z, Turn { cos: ONE, sin: 0 }, Turn { cos: ONE, sin: 0 }) == y,
        rotated_z(x, y, z, Turn { cos: ONE, sin: 0 }, Turn { cos: ONE, sin: 0 }) == z,
{
    let zero = Turn { cos: ONE, sin: 0 };
    assert(spun_x(x, z, zero) == x * 1_000_000);
    assert(spun_depth(x, z, zero) == z * 1_000_000);
    assert(spun_y(x, y, z, zero, zero) == y * 1_000_000_000_000) by (nonlinear_arith)
        requires
            spun_y(x, y, z, zero, zero) == y * 1_000_000 * 1_000_000 - spun_depth(x, z, zero) * 0,
    ;
    assert(spun_z(x, y, z, zero, zero) == z * 1_000_000_000_000) by (nonlinear_arith)
        requires
            spun_z(x, y, z, zero, zero) == y * 0 * 1_000_000 + spun_depth(x, z, zero)
                * 1_000_000,
            spun_depth(x, z, zero) == z * 1_000_000,
    ;
    assert(ONE * ONE == 1_000_000_000_000);
}

/// Turning the pair `(a, b)` by `turn` multiplies its squared length by the
/// squared length of the turn's cosine and sine.
pub proof fn turn_scales_squared_length(a: int, b: int, turn: Turn)
    ensures
        (a * turn.cos - b * turn.sin) * (a * turn.cos - b * turn.sin) + (a * turn.sin + b
            * turn.cos) * (a * turn.sin + b * turn.cos) == turn.norm() * (a * a + b * b),
{
    let c = turn.cos as int;
    let s = turn.sin as int;
    let ac = a * c;
    let bs = b * s;
    let as_ = a * s;
    let bc = b * c;
    assert((ac - bs) * (ac - bs) == ac * ac - 2 * (ac * bs) + bs * bs) by (nonlinear_arith);
    assert((as_ + bc) * (as_ + bc) == as_ * as_ + 2 * (as_ * bc) + bc * bc) by (nonlinear_arith);
    assert(ac * bs == as_ * bc) by (nonlinear_arith)
        requires
            ac == a * c,
            bs == b * s,
            as_ == a * s,
            bc == b * c,
    ;
    assert(ac * ac == (c * c) * (a * a) && bs * bs == (s * s) * (b * b) && as_ * as_ == (s * s) * (
    a * a) && bc * bc == (c * c) * (b * b)) by (nonlinear_arith)
        requires
            ac == a * c,
            bs == b * s,
            as_ == a * s,
            bc == b * c,
    ;
    assert((c * c + s * s) * (a * a + b * b) == (c * c) * (a * a) + (c * c) * (b * b) + (s * s) * (
    a * a) + (s * s) * (b * b)) by (nonlinear_arith);
}

/// A rotation by angles that lie exactly on the unit circle keeps the
/// distance of a point from the origin: the squared length of the exact
/// image equals that of the point. Both sides are stated times `ONE` to the
/// fourth power, the scale of the squares of [`spun_y`] and [`spun_z`].
pub proof fn rotation_preserves_norm(x: int, y: int, z: int, angle_x: Turn, angle_y: Turn)
    requires
        angle_x.is_unit(),
        angle_y.is_unit(),
    ensures
        (ONE * spun_x(x, z, angle_y)) * (ONE * spun_x(x, z, angle_y)) + spun_y(
            x,
            y,
            z,
            angle_x,
            angle_y,
        ) * spun_y(x, y, z, angle_x, angle_y) + spun_z(x, y, z, angle_x, angle_y) * spun_z(
            x,
            y,
            z,
            angle_x,
            angle_y,
        ) == (ONE * ONE) * (ONE * ONE) * (x * x + y * y + z * z),
{
    let u = ONE as int;
    let nx = spun_x(x, z, angle_y);
    let nd = spun_depth(x, z, angle_y);
    let ny = spun_y(x, y, z, angle_x, angle_y);
    let nz = spun_z(x, y, z, angle_x, angle_y);
    let yu = y * u;
    turn_scales_squared_length(x, z, angle_y);
    turn_scales_squared_length(yu, nd, angle_x);
    assert(nx * nx + nd * nd == (u * u) * (x * x + z * z));
    assert(y * angle_x.cos * u == yu * angle_x.cos && y * angle_x.sin * u == yu * angle_x.sin)
        by (nonlinear_arith)
        requires
            yu == y * u,
    ;
    assert(ny * ny + nz * nz == (u * u) * (yu * yu + nd * nd));
    let uu = u * u;
    let nxx = nx * nx;
    let ndd = nd * nd;
    let xz = x * x + z * z;
    let yy = y * y;
    assert((u * nx) * (u * nx) == uu * nxx) by (nonlinear_arith)
        requires
            uu == u * u,
            nxx == nx * nx,
    ;
    assert(yu * yu == uu * yy) by (nonlinear_arith)
        requires
            yu == y * u,
            uu == u * u,
            yy == y * y,
    ;
    assert(uu * nxx + uu * (uu * yy + ndd) == uu * uu * (xz + yy)) by (nonlinear_arith)
        requires
            nxx + ndd == uu * xz,
    ;
}

/// The squared length of the point `(x, y, z)`.
pub open spec fn squared_length(x: int, y: int, z: int) -> int {
    x * x + y * y + z * z
}

/// The squared length of the exact image of `(x, y, z)` under both
/// rotations, times `ONE` to the fourth power.
pub open spec fn spun_squared_length(x: int, y: int, z: int, angle_x: Turn, angle_y: Turn) -> int {
    squared_length(
        ONE * spun_x(x, z, angle_y),
        spun_y(x, y, z, angle_x, angle_y),
        spun_z(x, y, z, angle_x, angle_y),
    )
}

/// A rotation keeps the distance of a point from the origin up to the
/// defects of its two angles. The squared length of the exact image differs
/// from that of the point by exactly what the two defects put in, and for
/// well-formed angles by no more than the fraction
/// `(2 * defect of angle_x + defect of angle_y) / (ONE * ONE)` of the squared
/// length of the point. Both sides are stated times `ONE` to the fourth power.
pub proof fn rotation_keeps_norm_up_to_defect(
    x: int,
    y: int,
    z: int,
    angle_x: Turn,
    angle_y: Turn,
)
    requires
        angle_x.wf(),
        angle_y.wf(),
    ensures
        spun_squared_length(x, y, z, angle_x, angle_y) - (ONE * ONE) * (ONE * ONE) * squared_length(
            x,
            y,
            z,
        ) == (ONE * ONE) * ((angle_y.norm() - ONE * ONE) * (x * x + z * z)) + (angle_x.norm() - ONE
            * ONE) * ((ONE * ONE) * (y * y) + spun_depth(x, z, angle_y) * spun_depth(x, z, angle_y)),
        magnitude(
            spun_squared_length(x, y, z, angle_x, angle_y) - (ONE * ONE) * (ONE * ONE)
                * squared_length(x, y, z),
        ) <= (ONE * ONE) * ((2 * angle_x.defect() + angle_y.defect()) * squared_length(x, y, z)),
{
    let uu: int = 1_000_000_000_000;
    assert(ONE * ONE == uu);
    let nx = spun_x(x, z, angle_y);
    let nd = spun_depth(x, z, angle_y);
    let ny = spun_y(x, y, z, angle_x, angle_y);
    let nz = spun_z(x, y, z, angle_x, angle_y);
    let yu = y * ONE;
    let norm_x = angle_x.norm();
    let norm_y = angle_y.norm();
    let a = nx * nx;
    let d = nd * nd;
    let q = x * x + z * z;
    let yy = y * y;
    let e = uu * yy + d;
    turn_scales_squared_length(x, z, angle_y);
    turn_scales_squared_length(yu, nd, angle_x);
    assert(a + d == norm_y * q);
    assert(y * angle_x.cos * ONE == yu * angle_x.cos && y * angle_x.sin * ONE == yu * angle_x.sin)
        by (nonlinear_arith)
        requires
            yu == y * ONE,
    ;
    assert(yu * yu == uu * yy) by (nonlinear_arith)
        requires
            yu == y * 1_000_000,
            uu == 1_000_000_000_000,
            yy == y * y,
    ;
    assert(ny * ny + nz * nz == norm_x * e);
    assert((ONE * nx) * (ONE * nx) == uu * a) by (nonlinear_arith)
        requires
            ONE == 1_000_000,
            uu == 1_000_000_000_000,
            a == nx * nx,
    ;
    let image = spun_squared_length(x, y, z, angle_x, angle_y);
    assert(image == uu * a + norm_x * e);
    let gain_y = (norm_y - uu) * q;
    let gain_x = (norm_x - uu) * e;
    assert(gain_y == norm_y * q - uu * q) by (nonlinear_arith)
        requires
            gain_y == (norm_y - uu) * q,
    ;
    assert(gain_x == norm_x * e - uu * e) by (nonlinear_arith)
        requires
            gain_x == (norm_x - uu) * e,
    ;
    assert(uu * uu * squared_length(x, y, z) == uu * (uu * q) + uu * (uu * yy)) by (nonlinear_arith)
        requires
            squared_length(x, y, z) == q + yy,
    ;
    assert(uu * (norm_y * q - d) == uu * (norm_y * q) - uu * d) by (nonlinear_arith);
    assert(uu * gain_y == uu * (norm_y * q) - uu * (uu * q)) by (nonlinear_arith)
        requires
            gain_y == norm_y * q - uu * q,
    ;
    assert(uu * e == uu * (uu * yy) + uu * d) by (nonlinear_arith)
        requires
            e == uu * yy + d,
    ;
    assert(image - uu * uu * squared_length(x, y, z) == uu * gain_y + gain_x);
    assert((ONE * ONE) * (ONE * ONE) == uu * uu);

    let defect_x = angle_x.defect();
    let defect_y = angle_y.defect();
    assert(a >= 0 && d >= 0 && q >= 0 && yy >= 0) by (nonlinear_arith)
        requires
            a == nx * nx,
            d == nd * nd,
            q == x * x + z * z,
            yy == y * y,
    ;
    assert(0 <= norm_y <= 2 * uu) by (nonlinear_arith)
        requires
            norm_y == angle_y.cos * angle_y.cos + angle_y.sin * angle_y.sin,
            -1_000_000 <= angle_y.cos <= 1_000_000,
            -1_000_000 <= angle_y.sin <= 1_000_000,
            uu == 1_000_000_000_000,
    ;
    assert(norm_y * q <= 2 * (uu * q)) by (nonlinear_arith)
        requires
            0 <= norm_y <= 2 * uu,
            q >= 0,
    ;
    assert(0 <= e <= uu * yy + 2 * (uu * q));
    assert(magnitude(gain_y) == defect_y * q) by (nonlinear_arith)
        requires
            gain_y == (norm_y - uu) * q,
            q >= 0,
            defect_y == magnitude(norm_y - uu),
    ;
    assert(magnitude(gain_x) == defect_x * e) by (nonlinear_arith)
        requires
            gain_x == (norm_x - uu) * e,
            e >= 0,
            defect_x == magnitude(norm_x - uu),
    ;
    let p = squared_length(x, y, z);
    assert(defect_x * e <= defect_x * (uu * yy + 2 * (uu * q))) by (nonlinear_arith)
        requires
            defect_x >= 0,
            e <= uu * yy + 2 * (uu * q),
    ;
    assert(defect_x * (uu * yy + 2 * (uu * q)) <= uu * (2 * defect_x * p)) by (nonlinear_arith)
        requires
            defect_x >= 0,
            yy >= 0,
            q >= 0,
            uu == 1_000_000_000_000,
            p == q + yy,
    ;
    assert(uu * (defect_y * q) <= uu * (defect_y * p)) by (nonlinear_arith)
        requires
            defect_y >= 0,
            yy >= 0,
            q >= 0,
            uu == 1_000_000_000_000,
            p == q + yy,
    ;
    assert(magnitude(uu * gain_y) == uu * (defect_y * q)) by (nonlinear_arith)
        requires
            magnitude(gain_y) == defect_y * q,
            uu == 1_000_000_000_000,
    ;
    assert(uu * (2 * defect_x * p) + uu * (defect_y * p) == uu * ((2 * defect_x + defect_y) * p))
        by (nonlinear_arith);
}

/// The square of a quotient rounded toward zero, taken back to the scale of
/// the numerator, is no larger than the square of the numerator, and smaller
/// by no more than twice the divisor times the magnitude of the numerator.
proof fn lemma_toward_zero_square(n: int, d: int)
    requires
        d > 0,
    ensures
        0 <= n * n - (d * toward_zero(n, d)) * (d * toward_zero(n, d)) <= 2 * d * magnitude(n),
{
    let m = magnitude(n);
    let k = m / d;
    let b = d * k;
    vstd::arithmetic::div_mod::lemma_fundamental_div_mod(m, d);
    vstd::arithmetic::div_mod::lemma_mod_bound(m, d);
    assert(0 <= k) by (nonlinear_arith)
        requires
            m >= 0,
            d > 0,
            k == m / d,
    ;
    assert(0 <= b <= m && m - b < d);
    assert((d * toward_zero(n, d)) * (d * toward_zero(n, d)) == b * b) by (nonlinear_arith)
        requires
            b == d * k,
            toward_zero(n, d) == k || toward_zero(n, d) == -k,
    ;
    assert(n * n == m * m) by (nonlinear_arith)
        requires
            m == n || m == -n,
    ;
    assert(0 <= m * m - b * b <= 2 * d * m) by (nonlinear_arith)
        requires
            0 <= b <= m,
            m - b < d,
            d > 0,
    ;
}

/// What [`rotate`] returns is as long as the point up to a tolerance. The
/// rounding toward zero never lengthens: the squared length of the result is
/// no larger than that of the exact image, and smaller by no more than twice
/// the sum of the magnitudes of the image's coordinates. Together with the
/// defects of the two angles, see [`rotation_keeps_norm_up_to_defect`], this
/// bounds how far the squared length of the result is from that of the
/// point. All sides are stated times `ONE` to the fourth power.
pub proof fn rotate_keeps_length_within_tolerance(
    x: int,
    y: int,
    z: int,
    angle_x: Turn,
    angle_y: Turn,
)
    requires
        angle_x.wf(),
        angle_y.wf(),
    ensures
        (ONE * ONE) * (ONE * ONE) * squared_length(
            rotated_x(x, z, angle_y),
            rotated_y(x, y, z, angle_x, angle_y),
            rotated_z(x, y, z, angle_x, angle_y),
        ) <= spun_squared_length(x, y, z, angle_x, angle_y),
        spun_squared_length(x, y, z, angle_x, angle_y) - (ONE * ONE) * (ONE * ONE) * squared_length(
            rotated_x(x, z, angle_y),
            rotated_y(x, y, z, angle_x, angle_y),
            rotated_z(x, y, z, angle_x, angle_y),
        ) <= 2 * (ONE * ONE) * (magnitude(ONE * spun_x(x, z, angle_y)) + magnitude(
            spun_y(x, y, z, angle_x, angle_y),
        ) + magnitude(spun_z(x, y, z, angle_x, angle_y))),
        magnitude(
            (ONE * ONE) * (ONE * ONE) * squared_length(
                rotated_x(x, z, angle_y),
                rotated_y(x, y, z, angle_x, angle_y),
                rotated_z(x, y, z, angle_x, angle_y),
            ) - (ONE * ONE) * (ONE * ONE) * squared_length(x, y, z),
        ) <= (ONE * ONE) * ((2 * angle_x.defect() + angle_y.defect()) * squared_length(x, y, z))
            + 2 * (ONE * ONE) * (magnitude(ONE * spun_x(x, z, angle_y)) + magnitude(
            spun_y(x, y, z, angle_x, angle_y),
        ) + magnitude(spun_z(x, y, z, angle_x, angle_y))),
{
    let u: int = 1_000_000;
    let uu: int = 1_000_000_000_000;
    assert(ONE == u && ONE * ONE == uu);
    assert((ONE * ONE) * (ONE * ONE) == uu * uu);
    let nx = spun_x(x, z, angle_y);
    let ny = spun_y(x, y, z, angle_x, angle_y);
    let nz = spun_z(x, y, z, angle_x, angle_y);
    let rx = rotated_x(x, z, angle_y);
    let ry = rotated_y(x, y, z, angle_x, angle_y);
    let rz = rotated_z(x, y, z, angle_x, angle_y);
    lemma_toward_zero_square(nx, u);
    lemma_toward_zero_square(ny, uu);
    lemma_toward_zero_square(nz, uu);
    let lost_x = nx * nx - (u * rx) * (u * rx);
    let lost_y = ny * ny - (uu * ry) * (uu * ry);
    let lost_z = nz * nz - (uu * rz) * (uu * rz);
    assert(0 <= lost_x <= 2 * u * magnitude(nx));
    assert(0 <= lost_y <= 2 * uu * magnitude(ny));
    assert(0 <= lost_z <= 2 * uu * magnitude(nz));
    assert((u * nx) * (u * nx) - uu * uu * (rx * rx) == uu * lost_x) by (nonlinear_arith)
        requires
            lost_x == nx * nx - (u * rx) * (u * rx),
            u == 1_000_000,
            uu == 1_000_000_000_000,
    ;
    assert(ny * ny - uu * uu * (ry * ry) == lost_y) by (nonlinear_arith)
        requires
            lost_y == ny * ny - (uu * ry) * (uu * ry),
    ;
    assert(nz * nz - uu * uu * (rz * rz) == lost_z) by (nonlinear_arith)
        requires
            lost_z == nz * nz - (uu * rz) * (uu * rz),
    ;
    assert(magnitude(u * nx) == u * magnitude(nx));
    assert(uu * (2 * u * magnitude(nx)) == 2 * uu * magnitude(u * nx)) by (nonlinear_arith)
        requires
            magnitude(u * nx) == u * magnitude(nx),
    ;
    assert(uu * lost_x <= uu * (2 * u * magnitude(nx)));
    let result = squared_length(rx, ry, rz);
    assert(uu * uu * result == uu * uu * (rx * rx) + uu * uu * (ry * ry) + uu * uu * (rz * rz))
        by (nonlinear_arith)
        requires
            result == rx * rx + ry * ry + rz * rz,
    ;
    let image = spun_squared_length(x, y, z, angle_x, angle_y);
    assert(image - uu * uu * result == uu * lost_x + lost_y + lost_z);
    rotation_keeps_norm_up_to_defect(x, y, z, angle_x, angle_y);
}

/// Each coordinate that [`rotate`] returns differs from the exact one by
/// less than a thousandth.
pub proof fn rotation_rounds_within_a_thousandth(
    x: int,
    y: int,
    z: int,
    angle_x: Turn,
    angle_y: Turn,
)
    ensures
        magnitude(ONE * rotated_x(x, z, angle_y) - spun_x(x, z, angle_y)) < ONE,
        magnitude(
            ONE * ONE * rotated_y(x, y, z, angle_x, angle_y) - spun_y(x, y, z, angle_x, angle_y),
        ) < ONE * ONE,
        magnitude(
            ONE * ONE * rotated_z(x, y, z, angle_x, angle_y) - spun_z(x, y, z, angle_x, angle_y),
        ) < ONE * ONE,
{
    lemma_toward_zero_error(spun_x(x, z, angle_y), ONE as int);
    lemma_toward_zero_error(spun_y(x, y, z, angle_x, angle_y), ONE * ONE);
    lemma_toward_zero_error(spun_z(x, y, z, angle_x, angle_y), ONE * ONE);
}

/// For a point in front of the eye and a scale that is not negative, a
/// larger scale never brings the projection nearer to the centre of the
/// screen, and takes it strictly farther away once the gain in `v * scale`
/// amounts to the depth `z + distance`. A smaller gain may be lost in the
/// rounding: the distance from the centre is the whole part of
/// `|v| * scale / (z + distance)`.
pub proof fn projection_grows_with_scale(v: int, z: int, distance: int, low: int, high: int)
    requires
        z + distance > 0,
        v != 0,
        0 <= low < high,
    ensures
        magnitude(projected_offset(v, z, low, distance)) <= magnitude(
            projected_offset(v, z, high, distance),
        ),
        magnitude(v) * (high - low) >= z + distance ==> magnitude(
            projected_offset(v, z, low, distance),
        ) < magnitude(projected_offset(v, z, high, distance)),
        magnitude(projected_offset(v, z, low, distance)) == (magnitude(v) * low) / (z + distance),
        magnitude(projected_offset(v, z, high, distance)) == (magnitude(v) * high) / (z
            + distance),
{
    let d = z + distance;
    let m = magnitude(v);
    lemma_toward_zero_bound(v * low, d);
    lemma_toward_zero_bound(v * high, d);
    assert(magnitude(v * low) == m * low && magnitude(v * high) == m * high) by (nonlinear_arith)
        requires
            m == magnitude(v),
            0 <= low < high,
    ;
    assert(m * low <= m * high && m * high - m * low == m * (high - low)) by (nonlinear_arith)
        requires
            m >= 0,
            low < high,
    ;
    vstd::arithmetic::div_mod::lemma_div_is_ordered(m * low, m * high, d);
    if m * (high - low) >= d {
        vstd::arithmetic::div_mod::lemma_div_is_ordered(m * low + d, m * high, d);
        assert((m * low + d) / d == (m * low) / d + 1) by (nonlinear_arith)
            requires
                d > 0,
        ;
    }
}

} // verus!
