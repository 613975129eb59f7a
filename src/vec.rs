use vstd::prelude::*;

verus! {

/// Fixed-point scalar: a signed 16-bit integer read as a Q4.12 number
/// (12 fractional bits, so a granularity of 1/4096 and an integer part in
/// [-8, 7]).
pub type IFixed = i16;

/// The value 1.0 in the fixed-point representation.
pub const FIXED_ONE: IFixed = 0x1000;

/// 2D vector of fixed-point scalars.
#[derive(Copy, Clone, Debug, PartialEq, Eq, Structural)]
pub struct Vec2 {
    pub x: IFixed,
    pub y: IFixed,
}

/// 3D vector of fixed-point scalars; only stores mesh vertices.
#[derive(Copy, Clone, Debug, PartialEq, Eq, Structural)]
pub struct Vec3 {
    pub x: IFixed,
    pub y: IFixed,
    pub z: IFixed,
}

/// Absolute value with the wrap of the 16-bit integer: the most negative
/// value is its own absolute value.
pub open spec fn abs_fixed(x: i16) -> i16 {
    if x == i16::MIN {
        x
    } else if x < 0 {
        (-x) as i16
    } else {
        x
    }
}

/// Real part of the complex product of `a` and `b`, before rescaling.
pub open spec fn cross_re(a: Vec2, b: Vec2) -> int {
    a.x * b.x - a.y * b.y
}

/// Imaginary part of the complex product of `a` and `b`, before rescaling.
pub open spec fn cross_im(a: Vec2, b: Vec2) -> int {
    a.x * b.y + a.y * b.x
}

/// Complex product of `a` and `b`, rescaled by an arithmetic shift of 12
/// (a floor division by 4096) and truncated to 16 bits.
pub open spec fn rotate_spec(a: Vec2, b: Vec2) -> Vec2 {
    Vec2 { x: (cross_re(a, b) / 4096) as i16, y: (cross_im(a, b) / 4096) as i16 }
}

/// Component-wise sum with 16-bit wraparound.
pub open spec fn add_spec(a: Vec2, b: Vec2) -> Vec2 {
    Vec2 { x: a.x.wrapping_add(b.x), y: a.y.wrapping_add(b.y) }
}

/// Component-wise difference with 16-bit wraparound.
pub open spec fn sub_spec(a: Vec2, b: Vec2) -> Vec2 {
    Vec2 { x: a.x.wrapping_sub(b.x), y: a.y.wrapping_sub(b.y) }
}

/// Squared Euclidean magnitude.
pub open spec fn norm2(v: Vec2) -> int {
    v.x * v.x + v.y * v.y
}

/// An arithmetic right shift by 12 of a 32-bit value is a floor division by
/// 4096.
proof fn lemma_shr12_is_div(p: i32)
    ensures
        (p >> 12) as int == p as int / 4096,
{
    assert(p >> 12 == p / 4096) by (bit_vector);
}

/// Lagrange's identity: the magnitude of a complex product is the product
/// of the magnitudes.
pub proof fn lemma_product_norm(a: Vec2, b: Vec2)
    ensures
        cross_re(a, b) * cross_re(a, b) + cross_im(a, b) * cross_im(a, b) == norm2(a) * norm2(b),
{
    let (ax, ay, bx, by) = (a.x as int, a.y as int, b.x as int, b.y as int);
    let (p, q, r, t) = (ax * bx, ay * by, ax * by, ay * bx);
    assert(p * q == r * t) by (nonlinear_arith)
        requires
            p == ax * bx,
            q == ay * by,
            r == ax * by,
            t == ay * bx,
    ;
    assert((p - q) * (p - q) + (r + t) * (r + t) == p * p + q * q + r * r + t * t)
        by (nonlinear_arith)
        requires
            p * q == r * t,
    ;
    assert(p * p == (ax * ax) * (bx * bx)) by (nonlinear_arith)
        requires
            p == ax * bx,
    ;
    assert(q * q == (ay * ay) * (by * by)) by (nonlinear_arith)
        requires
            q == ay * by,
    ;
    assert(r * r == (ax * ax) * (by * by)) by (nonlinear_arith)
        requires
            r == ax * by,
    ;
    assert(t * t == (ay * ay) * (bx * bx)) by (nonlinear_arith)
        requires
            t == ay * bx,
    ;
    let (xx, yy, uu, vv) = (ax * ax, ay * ay, bx * bx, by * by);
    assert((xx + yy) * (uu + vv) == xx * uu + yy * vv + xx * vv + yy * uu) by (nonlinear_arith);
}

/// A squared magnitude is never negative.
pub proof fn lemma_norm_nonneg(v: Vec2)
    ensures
        norm2(v) >= 0,
{
    assert(v.x * v.x >= 0 && v.y * v.y >= 0) by (nonlinear_arith);
}

/// A value whose square is at most `m * m` lies within `m` of zero.
pub proof fn lemma_abs_from_square(x: int, m: int)
    requires
        m >= 0,
        x * x <= m * m,
    ensures
        -m <= x <= m,
{
    if x > m {
        assert(x * x > m * m) by (nonlinear_arith)
            requires
                x > m,
                m >= 0,
        ;
    }
    if x < -m {
        assert(x * x > m * m) by (nonlinear_arith)
            requires
                x < -m,
                m >= 0,
        ;
    }
}

/// Floor division by 4096 moves a value at most one unit of 4096 further
/// from zero.
proof fn lemma_rescale_square(p: int, m: int)
    requires
        m >= 0,
        -m <= p <= m,
    ensures
        (p / 4096) * (p / 4096) * 0x100_0000 <= (m + 4096) * (m + 4096),
{
    let d = p / 4096;
    assert(p - 4096 < 4096 * d <= p);
    assert(-(m + 4096) <= 4096 * d <= m + 4096);
    assert((4096 * d) * (4096 * d) <= (m + 4096) * (m + 4096)) by (nonlinear_arith)
        requires
            -(m + 4096) <= 4096 * d <= m + 4096,
    ;
    assert((4096 * d) * (4096 * d) == d * d * 0x100_0000) by (nonlinear_arith);
}

/// Rotating by a vector of magnitude at most 1.0 grows the magnitude of the
/// rotated vector by at most two units of the last place: the rounding of
/// the rescale is the only source of growth.
pub proof fn lemma_rotate_drift(a: Vec2, b: Vec2, bound: int)
    requires
        norm2(b) <= 0x100_0000,
        0 <= bound <= 30000,
        norm2(a) <= bound * bound,
    ensures
        norm2(rotate_spec(a, b)) <= (bound + 2) * (bound + 2),
        -32767 <= cross_re(a, b) / 4096 <= 32767,
        -32767 <= cross_im(a, b) / 4096 <= 32767,
{
    let re = cross_re(a, b);
    let im = cross_im(a, b);
    let m = bound * 4096;
    lemma_product_norm(a, b);
    lemma_norm_nonneg(a);
    lemma_norm_nonneg(b);
    assert(norm2(a) * norm2(b) <= m * m) by (nonlinear_arith)
        requires
            0 <= norm2(a) <= bound * bound,
            0 <= norm2(b) <= 0x100_0000,
            m == bound * 4096,
    ;
    assert(re * re <= m * m && im * im <= m * m) by (nonlinear_arith)
        requires
            re * re + im * im <= m * m,
    ;
    lemma_abs_from_square(re, m);
    lemma_abs_from_square(im, m);
    let ra = if re < 0 { -re } else { re };
    let ia = if im < 0 { -im } else { im };
    assert(ra * ra == re * re) by (nonlinear_arith)
        requires
            ra == re || ra == -re,
    ;
    assert(ia * ia == im * im) by (nonlinear_arith)
        requires
            ia == im || ia == -im,
    ;
    assert((ra + ia) * (ra + ia) <= (2 * m) * (2 * m)) by (nonlinear_arith)
        requires
            ra * ra == re * re,
            ia * ia == im * im,
            re * re + im * im <= m * m,
            ra >= 0,
            ia >= 0,
    ;
    lemma_abs_from_square(ra + ia, 2 * m);
    lemma_rescale_square(re, ra);
    lemma_rescale_square(im, ia);
    let x = re / 4096;
    let y = im / 4096;
    assert(x * x * 0x100_0000 + y * y * 0x100_0000 <= (bound + 2) * (bound + 2) * 0x100_0000)
        by (nonlinear_arith)
        requires
            x * x * 0x100_0000 <= (ra + 4096) * (ra + 4096),
            y * y * 0x100_0000 <= (ia + 4096) * (ia + 4096),
            ra * ra + ia * ia <= m * m,
            ra + ia <= 2 * m,
            m == bound * 4096,
            ra >= 0,
            ia >= 0,
    ;
    let r = rotate_spec(a, b);
    assert(r.x == x && r.y == y);
}

/// Multiplying 1.0 by a vector gives that vector back exactly.
pub proof fn lemma_rotate_unit_x(r: Vec2)
    ensures
        rotate_spec(Vec2 { x: FIXED_ONE, y: 0 }, r) == r,
{
    let u = Vec2 { x: FIXED_ONE, y: 0 };
    assert(cross_re(u, r) == 4096 * r.x);
    assert(cross_im(u, r) == 4096 * r.y);
}

impl Vec2 {
    /// Multiply by another vector as a complex number.
    ///
    /// Both operands are widened to 32 bits before the products are taken,
    /// and the result is rescaled by an arithmetic shift of 12.
    pub fn rotate(self, other: Self) -> (r: Self)
        ensures
            r == rotate_spec(self, other),
    {
        let ax = self.x as i32;
        let ay = self.y as i32;
        let bx = other.x as i32;
        let by = other.y as i32;
        proof {
            lemma_product_bounds(self.x, other.x);
            lemma_product_bounds(self.y, other.y);
            lemma_product_bounds(self.x, other.y);
            lemma_product_bounds(self.y, other.x);
        }
        let re: i32 = ax * bx - ay * by;
        let pxy: i32 = ax * by;
        let pyx: i32 = ay * bx;
        // The one sum that leaves the 32-bit range is 2^31, when all four
        // scalars are -32768; wrapping changes no bit that survives the
        // rescale and the 16-bit truncation.
        let im: i32 = pxy.wrapping_add(pyx);
        proof {
            lemma_shr12_is_div(re);
            lemma_shr12_is_div(im);
            if pxy + pyx > i32::MAX {
                assert(pxy + pyx == 0x8000_0000int);
                assert(im == i32::MIN);
                assert((0x8_0000int) as i16 == 0i16) by (bit_vector);
                assert((-0x8_0000int) as i16 == 0i16) by (bit_vector);
            }
        }
        Vec2 { x: (re >> 12) as i16, y: (im >> 12) as i16 }
    }

    /// Swap x and y.
    pub fn swap(self) -> (r: Self)
        ensures
            r.x == self.y,
            r.y == self.x,
    {
        Vec2 { x: self.y, y: self.x }
    }

    /// Component-wise absolute value (the most negative scalar maps to
    /// itself).
    pub fn component_abs(self) -> (r: Self)
        ensures
            r.x == abs_fixed(self.x),
            r.y == abs_fixed(self.y),
    {
        Vec2 { x: fixed_abs(self.x), y: fixed_abs(self.y) }
    }
}

/// Bounds of the product of two 16-bit scalars.
proof fn lemma_product_bounds(a: i16, b: i16)
    ensures
        -0x3fff_8000 <= a * b <= 0x4000_0000,
        a * b == 0x4000_0000 <==> (a == i16::MIN && b == i16::MIN),
{
    assert(-0x3fff_8000 <= a * b <= 0x4000_0000) by (nonlinear_arith);
    assert(a * b == 0x4000_0000 ==> (a == i16::MIN && b == i16::MIN)) by (nonlinear_arith);
}

fn fixed_abs(x: i16) -> (r: i16)
    ensures
        r == abs_fixed(x),
{
    if x == i16::MIN {
        x
    } else if x < 0 {
        -x
    } else {
        x
    }
}

impl Default for Vec2 {
    /// The zero vector.
    fn default() -> (r: Vec2)
        ensures
            r == (Vec2 { x: 0, y: 0 }),
    {
        Vec2 { x: 0, y: 0 }
    }
}

impl core::ops::Add for Vec2 {
    type Output = Vec2;

    /// Component-wise sum with 16-bit wraparound.
    fn add(self, other: Vec2) -> (r: Vec2) {
        Vec2 { x: self.x.wrapping_add(other.x), y: self.y.wrapping_add(other.y) }
    }
}

impl vstd::std_specs::ops::AddSpecImpl for Vec2 {
    open spec fn obeys_add_spec() -> bool {
        true
    }

    open spec fn add_req(self, other: Vec2) -> bool {
        true
    }

    open spec fn add_spec(self, other: Vec2) -> Vec2 {
        add_spec(self, other)
    }
}

impl core::ops::Sub for Vec2 {
    type Output = Vec2;

    /// Component-wise difference with 16-bit wraparound.
    fn sub(self, other: Vec2) -> (r: Vec2) {
        Vec2 { x: self.x.wrapping_sub(other.x), y: self.y.wrapping_sub(other.y) }
    }
}

impl vstd::std_specs::ops::SubSpecImpl for Vec2 {
    open spec fn obeys_sub_spec() -> bool {
        true
    }

    open spec fn sub_req(self, other: Vec2) -> bool {
        true
    }

    open spec fn sub_spec(self, other: Vec2) -> Vec2 {
        sub_spec(self, other)
    }
}

} // verus!
