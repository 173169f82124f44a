//! Two-dimensional vectors in fixed point.
//!
//! A coordinate counts millionths of the field's side: the field is the square
//! `[0, SCALE] x [0, SCALE]`. Factors (a time step in seconds, a ratio) use the
//! same scale, so `SCALE` stands for `1.0`.

use vstd::prelude::*;

verus! {

/// The fixed-point unit: `SCALE` stands for `1.0`.
pub const SCALE: i64 = 1_000_000;

/// Whether an integer fits in an `i64`.
pub open spec fn fits(a: int) -> bool {
    i64::MIN <= a <= i64::MAX
}

pub open spec fn abs(a: int) -> int {
    if a < 0 { -a } else { a }
}

/// Division that rounds toward zero, as integer division in Rust does.
pub open spec fn div_trunc(a: int, b: int) -> int {
    if (a >= 0) == (b > 0) {
        abs(a) / abs(b)
    } else {
        -(abs(a) / abs(b))
    }
}

/// Fixed-point product of a coordinate by a factor.
pub open spec fn fx_mul(a: int, k: int) -> int {
    div_trunc(a * k, SCALE as int)
}

/// Fixed-point quotient of two coordinates.
pub open spec fn fx_div(a: int, b: int) -> int {
    div_trunc(a * SCALE, b)
}

/// `a` limited to `[lo, hi]`.
pub open spec fn clamp_int(a: int, lo: int, hi: int) -> int {
    if a < lo { lo } else if a > hi { hi } else { a }
}

/// `a` rounded to the nearest whole unit (a multiple of `SCALE`), halves away from zero.
pub open spec fn round_fx(a: int) -> int {
    if a >= 0 {
        ((a + SCALE / 2) / (SCALE as int)) * SCALE
    } else {
        -((((-a) + SCALE / 2) / (SCALE as int)) * SCALE)
    }
}

/// The point `p` turned by `q` quarter turns, counterclockwise for positive `q`.
pub open spec fn rot(p: (int, int), q: int) -> (int, int) {
    let m = q % 4;
    if m == 0 {
        p
    } else if m == 1 {
        (-p.1, p.0)
    } else if m == 2 {
        (-p.0, -p.1)
    } else {
        (p.1, -p.0)
    }
}

/// Truncating division on wide integers.
pub(crate) fn div_trunc_wide(a: i128, b: i128) -> (r: i128)
    requires
        b != 0,
        a > i128::MIN,
        b > i128::MIN,
    ensures
        r == div_trunc(a as int, b as int),
        abs(r as int) <= abs(a as int),
{
    let ua: i128 = if a < 0 { -a } else { a };
    let ub: i128 = if b < 0 { -b } else { b };
    let q: i128 = ua / ub;
    assert(q <= ua) by (nonlinear_arith)
        requires
            q == ua / ub,
            ua >= 0,
            ub > 0,
    ;
    if (a >= 0) == (b > 0) {
        q
    } else {
        -q
    }
}

/// A point or displacement on the field, in fixed point.
#[derive(Clone, Copy, Debug, PartialEq, Eq, Structural)]
pub struct Vec2 {
    pub x: i64,
    pub y: i64,
}

impl Vec2 {
    /// The pair of coordinates.
    pub open spec fn pair(self) -> (int, int) {
        (self.x as int, self.y as int)
    }

    /// Whether the point lies in the box from `p1` to `p2`, borders included.
    pub open spec fn spec_inside(self, p1: Vec2, p2: Vec2) -> bool {
        self.x >= p1.x && self.y >= p1.y && self.x <= p2.x && self.y <= p2.y
    }

    pub fn new(x: i64, y: i64) -> (r: Vec2)
        ensures
            r.x == x,
            r.y == y,
    {
        Vec2 { x, y }
    }

    pub fn add(self, rhs: Vec2) -> (r: Vec2)
        requires
            fits(self.x + rhs.x),
            fits(self.y + rhs.y),
        ensures
            r.x == self.x + rhs.x,
            r.y == self.y + rhs.y,
    {
        let x = self.x + rhs.x;
        let y = self.y + rhs.y;
        Vec2 { x, y }
    }

    pub fn sub(self, rhs: Vec2) -> (r: Vec2)
        requires
            fits(self.x - rhs.x),
            fits(self.y - rhs.y),
        ensures
            r.x == self.x - rhs.x,
            r.y == self.y - rhs.y,
    {
        let x = self.x - rhs.x;
        let y = self.y - rhs.y;
        Vec2 { x, y }
    }

    pub fn add_assign(&mut self, rhs: Vec2)
        requires
            fits(old(self).x + rhs.x),
            fits(old(self).y + rhs.y),
        ensures
            final(self).x == old(self).x + rhs.x,
            final(self).y == old(self).y + rhs.y,
    {
        self.x = self.x + rhs.x;
        self.y = self.y + rhs.y;
    }

    pub fn sub_assign(&mut self, rhs: Vec2)
        requires
            fits(old(self).x - rhs.x),
            fits(old(self).y - rhs.y),
        ensures
            final(self).x == old(self).x - rhs.x,
            final(self).y == old(self).y - rhs.y,
    {
        self.x = self.x - rhs.x;
        self.y = self.y - rhs.y;
    }

    /// Scales both coordinates by the fixed-point factor `k`.
    pub fn mul(self, k: i64) -> (r: Vec2)
        requires
            fits(fx_mul(self.x as int, k as int)),
            fits(fx_mul(self.y as int, k as int)),
        ensures
            r.x == fx_mul(self.x as int, k as int),
            r.y == fx_mul(self.y as int, k as int),
    {
        let x = scale_wide(self.x, k);
        let y = scale_wide(self.y, k);
        Vec2 { x: x as i64, y: y as i64 }
    }

    /// Divides coordinate by coordinate, in fixed point.
    pub fn div(self, rhs: Vec2) -> (r: Vec2)
        requires
            rhs.x != 0,
            rhs.y != 0,
            fits(fx_div(self.x as int, rhs.x as int)),
            fits(fx_div(self.y as int, rhs.y as int)),
        ensures
            r.x == fx_div(self.x as int, rhs.x as int),
            r.y == fx_div(self.y as int, rhs.y as int),
    {
        let x = quotient_wide(self.x, rhs.x);
        let y = quotient_wide(self.y, rhs.y);
        Vec2 { x: x as i64, y: y as i64 }
    }

    /// Turns the vector by `quarter_turns` right angles, counterclockwise for a
    /// positive count.
    pub fn rotate(&mut self, quarter_turns: i64)
        requires
            old(self).x > i64::MIN,
            old(self).y > i64::MIN,
        ensures
            final(self).pair() == rot(old(self).pair(), quarter_turns as int),
    {
        let m: i64 = if quarter_turns >= 0 {
            quarter_turns % 4
        } else {
            3 - (-(quarter_turns + 1)) % 4
        };
        assert(m == quarter_turns % 4);
        let (x, y) = (self.x, self.y);
        if m == 1 {
            self.x = -y;
            self.y = x;
        } else if m == 2 {
            self.x = -x;
            self.y = -y;
        } else if m == 3 {
            self.x = y;
            self.y = -x;
        }
    }

    /// Limits each coordinate to the range that `min` and `max` give for it.
    pub fn clamp(self, min: Vec2, max: Vec2) -> (r: Vec2)
        requires
            min.x <= max.x,
            min.y <= max.y,
        ensures
            r.x == clamp_int(self.x as int, min.x as int, max.x as int),
            r.y == clamp_int(self.y as int, min.y as int, max.y as int),
            min.x <= r.x <= max.x,
            min.y <= r.y <= max.y,
    {
        let x = if self.x < min.x {
            min.x
        } else if self.x > max.x {
            max.x
        } else {
            self.x
        };
        let y = if self.y < min.y {
            min.y
        } else if self.y > max.y {
            max.y
        } else {
            self.y
        };
        Vec2 { x, y }
    }

    /// Whether the point lies in the box from `p1` to `p2`, borders included.
    pub fn inside_rectange(&self, p1: Vec2, p2: Vec2) -> (r: bool)
        ensures
            r == self.spec_inside(p1, p2),
    {
        self.x >= p1.x && self.y >= p1.y && self.x <= p2.x && self.y <= p2.y
    }

    /// Rounds each coordinate to the nearest whole unit.
    pub fn round(self) -> (r: Vec2)
        requires
            fits(round_fx(self.x as int)),
            fits(round_fx(self.y as int)),
        ensures
            r.x == round_fx(self.x as int),
            r.y == round_fx(self.y as int),
    {
        let x = round_wide(self.x);
        let y = round_wide(self.y);
        Vec2 { x: x as i64, y: y as i64 }
    }

    /// Whether the point lies below and left of `p1` and at once above and
    /// right of `p2`; never so when `p1` is below and left of `p2`.
    pub fn outside_rectange(&self, p1: Vec2, p2: Vec2) -> (r: bool)
        ensures
            r == (self.x < p1.x && self.y < p1.y && self.x > p2.x && self.y > p2.y),
            p1.x <= p2.x ==> !r,
    {
        self.x < p1.x && self.y < p1.y && self.x > p2.x && self.y > p2.y
    }
}

/// `fx_mul(a, k)` computed without overflow.
pub(crate) fn scale_wide(a: i64, k: i64) -> (r: i128)
    ensures
        r == fx_mul(a as int, k as int),
        abs(r as int) <= 0x4000_0000_0000_0000_0000_0000_0000_0000,
{
    assert(abs(a * k) <= 0x4000_0000_0000_0000_0000_0000_0000_0000) by (nonlinear_arith)
        requires
            i64::MIN <= a <= i64::MAX,
            i64::MIN <= k <= i64::MAX,
    ;
    let p: i128 = (a as i128) * (k as i128);
    div_trunc_wide(p, SCALE as i128)
}

/// `fx_div(a, b)` computed without overflow.
fn quotient_wide(a: i64, b: i64) -> (r: i128)
    requires
        b != 0,
    ensures
        r == fx_div(a as int, b as int),
{
    assert(abs(a * SCALE) <= 0x4000_0000_0000_0000_0000_0000_0000_0000) by (nonlinear_arith)
        requires
            i64::MIN <= a <= i64::MAX,
    ;
    let p: i128 = (a as i128) * (SCALE as i128);
    div_trunc_wide(p, b as i128)
}

/// `round_fx(a)` computed without overflow.
fn round_wide(a: i64) -> (r: i128)
    ensures
        r == round_fx(a as int),
{
    let s: i128 = SCALE as i128;
    if a >= 0 {
        let n: i128 = (a as i128 + s / 2) / s;
        assert(n * s <= a + s) by (nonlinear_arith)
            requires
                n == (a + s / 2) / (s as int),
                a >= 0,
                s == 1_000_000,
        ;
        n * s
    } else {
        let n: i128 = (-(a as i128) + s / 2) / s;
        assert(n * s <= -a + s) by (nonlinear_arith)
            requires
                n == (-a + s / 2) / (s as int),
                a < 0,
                s == 1_000_000,
        ;
        -(n * s)
    }
}

/// Turning a vector by some quarter turns and then back by as many gives the
/// vector again.
pub proof fn lemma_rotate_round_trip(v: (int, int), a: int)
    ensures
        rot(rot(v, a), -a) == v,
{
    assert((a % 4 + (-a) % 4) % 4 == 0);
}

/// Both corners of a box belong to it.
pub proof fn lemma_inside_corners(p1: Vec2, p2: Vec2)
    requires
        p1.x <= p2.x,
        p1.y <= p2.y,
    ensures
        p1.spec_inside(p1, p2),
        p2.spec_inside(p1, p2),
{
}

} // verus!
