//! Fixed-point quantities. Every coordinate, extent, speed, factor and time
//! span is a signed count of thousandths: `1_000` stands for one unit, one
//! second or the factor one.

use vstd::prelude::*;

verus! {

/// The number of thousandths in one unit.
pub const UNIT: i64 = 1_000;

/// The product of two fixed-point numbers, rounded toward zero.
pub open spec fn fx_mul(a: int, b: int) -> int {
    let p = a * b;
    if p >= 0 {
        p / 1_000
    } else {
        -((-p) / 1_000)
    }
}

/// Whether a mathematical integer fits the 64-bit range of a quantity.
pub open spec fn fits(v: int) -> bool {
    i64::MIN <= v <= i64::MAX
}

/// A product keeps the sign of its operands' product and never exceeds the
/// first operand in magnitude while the factor lies between zero and one.
pub proof fn lemma_fx_mul_shrinks(a: int, f: int)
    requires
        0 <= f <= 1_000,
    ensures
        a >= 0 ==> 0 <= fx_mul(a, f) <= a,
        a <= 0 ==> a <= fx_mul(a, f) <= 0,
{
    if a >= 0 {
        assert(0 <= a * f <= a * 1_000) by (nonlinear_arith)
            requires
                a >= 0,
                0 <= f <= 1_000,
        ;
    } else {
        assert(0 <= (-a) * f <= (-a) * 1_000) by (nonlinear_arith)
            requires
                a < 0,
                0 <= f <= 1_000,
        ;
        assert(-(a * f) == (-a) * f) by (nonlinear_arith);
    }
}

/// A product grows with the magnitude of its first operand and keeps its
/// sign: a slower speed never travels farther in the same time.
pub proof fn lemma_fx_mul_monotone(a: int, b: int, t: int)
    requires
        (0 <= a <= b) || (b <= a <= 0),
    ensures
        0 <= fx_mul(a, t) <= fx_mul(b, t) || fx_mul(b, t) <= fx_mul(a, t) <= 0,
{
    if t >= 0 {
        if 0 <= a <= b {
            assert(0 <= a * t <= b * t) by (nonlinear_arith)
                requires
                    0 <= a <= b,
                    t >= 0,
            ;
        } else {
            assert(0 <= (-a) * t <= (-b) * t) by (nonlinear_arith)
                requires
                    b <= a <= 0,
                    t >= 0,
            ;
            assert(-(a * t) == (-a) * t && -(b * t) == (-b) * t) by (nonlinear_arith);
        }
    } else {
        if 0 <= a <= b {
            assert(0 <= a * (-t) <= b * (-t)) by (nonlinear_arith)
                requires
                    0 <= a <= b,
                    t < 0,
            ;
            assert(-(a * t) == a * (-t) && -(b * t) == b * (-t)) by (nonlinear_arith);
        } else {
            assert(0 <= a * t <= b * t) by (nonlinear_arith)
                requires
                    b <= a <= 0,
                    t < 0,
            ;
        }
    }
}

/// Multiplies two fixed-point numbers in 128 bits, rounding toward zero.
pub fn fx_product(a: i64, b: i64) -> (r: i128)
    ensures
        r == fx_mul(a as int, b as int),
        -0x4000_0000_0000_0000_0000_0000_0000_0000 <= r <= 0x4000_0000_0000_0000_0000_0000_0000_0000,
{
    assert(-0x4000_0000_0000_0000_0000_0000_0000_0000 <= (a as int) * (b as int)
        <= 0x4000_0000_0000_0000_0000_0000_0000_0000) by (nonlinear_arith)
        requires
            -0x8000_0000_0000_0000 <= a as int <= 0x7fff_ffff_ffff_ffff,
            -0x8000_0000_0000_0000 <= b as int <= 0x7fff_ffff_ffff_ffff,
    ;
    let p: i128 = (a as i128) * (b as i128);
    if p >= 0 {
        p / 1_000
    } else {
        -((-p) / 1_000)
    }
}

/// Multiplies two wide fixed-point numbers whose product stays well within
/// 128 bits, rounding toward zero.
pub fn fx_product_of(a: i128, b: i128) -> (r: i128)
    requires
        -0x6000_0000_0000_0000_0000_0000_0000_0000 <= a * b <= 0x6000_0000_0000_0000_0000_0000_0000_0000,
    ensures
        r == fx_mul(a as int, b as int),
        -0x6000_0000_0000_0000_0000_0000_0000_0000 <= r * 1_000 <= 0x6000_0000_0000_0000_0000_0000_0000_0000,
{
    let p: i128 = a * b;
    if p >= 0 {
        p / 1_000
    } else {
        -((-p) / 1_000)
    }
}

/// Multiplies a wide fixed-point number by a factor between zero and one,
/// rounding toward zero.
pub fn fx_product_wide(a: i128, factor: i64) -> (r: i128)
    requires
        -0x1_0000_0000_0000_0000 <= a <= 0x1_0000_0000_0000_0000,
        0 <= factor <= 1_000,
    ensures
        r == fx_mul(a as int, factor as int),
{
    assert(-1_000 * 0x1_0000_0000_0000_0000 <= (a as int) * (factor as int) <= 1_000
        * 0x1_0000_0000_0000_0000) by (nonlinear_arith)
        requires
            -0x1_0000_0000_0000_0000 <= a as int <= 0x1_0000_0000_0000_0000,
            0 <= factor as int <= 1_000,
    ;
    let p: i128 = a * (factor as i128);
    if p >= 0 {
        p / 1_000
    } else {
        -((-p) / 1_000)
    }
}

/// Multiplies two fixed-point numbers, rounding toward zero.
pub fn scale_value(a: i64, factor: i64) -> (r: i64)
    requires
        fits(fx_mul(a as int, factor as int)),
    ensures
        r == fx_mul(a as int, factor as int),
{
    fx_product(a, factor) as i64
}

/// A point in 2D space with a direction in degrees.
#[derive(Clone, Copy, Debug, PartialEq, Eq, Structural)]
pub struct PointWithDeg {
    pub x: i64,
    pub y: i64,
    pub deg: i64,
}

impl Default for PointWithDeg {
    fn default() -> (p: Self)
        ensures
            p == (PointWithDeg { x: 0, y: 0, deg: 0 }),
    {
        PointWithDeg { x: 0, y: 0, deg: 0 }
    }
}

impl PointWithDeg {
    /// A point at `(x, y)`; the direction is `deg`, or zero when none is given.
    pub fn new(x: i64, y: i64, deg: Option<i64>) -> (p: Self)
        ensures
            p.x == x,
            p.y == y,
            p.deg == (match deg {
                Some(d) => d,
                None => 0,
            }),
    {
        let deg = match deg {
            Some(d) => d,
            None => 0,
        };
        Self { x, y, deg }
    }
}

/// A 2D extent: width (`x`) and height (`y`).
#[derive(Clone, Copy, Debug, PartialEq, Eq, Structural)]
pub struct Size {
    pub x: i64,
    pub y: i64,
}

impl Default for Size {
    fn default() -> (s: Self)
        ensures
            s == (Size { x: 0, y: 0 }),
    {
        Size { x: 0, y: 0 }
    }
}

impl Size {
    /// An extent of width `x` and height `y`.
    pub fn new(x: i64, y: i64) -> (s: Self)
        ensures
            s == (Size { x, y }),
    {
        Self { x, y }
    }
}

/// A speed per second along each axis.
#[derive(Clone, Copy, Debug, PartialEq, Eq, Structural)]
pub struct Velocity {
    pub x: i64,
    pub y: i64,
}

impl Default for Velocity {
    fn default() -> (v: Self)
        ensures
            v == (Velocity { x: 0, y: 0 }),
    {
        Velocity { x: 0, y: 0 }
    }
}

impl Velocity {
    /// The velocity with both components multiplied by `factor`.
    pub open spec fn scaled(self, factor: int) -> (int, int) {
        (fx_mul(self.x as int, factor), fx_mul(self.y as int, factor))
    }

    /// Whether both components stay representable when multiplied by `factor`.
    pub open spec fn can_scale(self, factor: int) -> bool {
        fits(fx_mul(self.x as int, factor)) && fits(fx_mul(self.y as int, factor))
    }

    /// The zero velocity.
    pub fn new() -> (v: Self)
        ensures
            v == (Velocity { x: 0, y: 0 }),
    {
        Velocity { x: 0, y: 0 }
    }

    /// The velocity with the given components.
    pub fn from(x: i64, y: i64) -> (v: Self)
        ensures
            v == (Velocity { x, y }),
    {
        Self { x, y }
    }

    /// Replaces the horizontal component.
    pub fn set_x(self, x: i64) -> (v: Self)
        ensures
            v == (Velocity { x, y: self.y }),
    {
        Self { x, y: self.y }
    }

    /// Replaces the vertical component.
    pub fn set_y(self, y: i64) -> (v: Self)
        ensures
            v == (Velocity { x: self.x, y }),
    {
        Self { x: self.x, y }
    }

    /// Multiplies both components by `factor`.
    pub fn scale(self, factor: i64) -> (v: Self)
        requires
            self.can_scale(factor as int),
        ensures
            (v.x as int, v.y as int) == self.scaled(factor as int),
    {
        Self { x: scale_value(self.x, factor), y: scale_value(self.y, factor) }
    }

    /// Multiplies the horizontal component by `factor`.
    pub fn scale_x(self, factor: i64) -> (v: Self)
        requires
            fits(fx_mul(self.x as int, factor as int)),
        ensures
            v.x == fx_mul(self.x as int, factor as int),
            v.y == self.y,
    {
        Self { x: scale_value(self.x, factor), y: self.y }
    }

    /// Multiplies the vertical component by `factor`.
    pub fn scale_y(self, factor: i64) -> (v: Self)
        requires
            fits(fx_mul(self.y as int, factor as int)),
        ensures
            v.x == self.x,
            v.y == fx_mul(self.y as int, factor as int),
    {
        Self { x: self.x, y: scale_value(self.y, factor) }
    }

    /// Multiplies both components by `factor`, in place.
    pub fn scale_mut(&mut self, factor: i64)
        requires
            old(self).can_scale(factor as int),
        ensures
            (final(self).x as int, final(self).y as int) == old(self).scaled(factor as int),
    {
        self.x = scale_value(self.x, factor);
        self.y = scale_value(self.y, factor);
    }

    /// Multiplies the horizontal component by `factor`, in place.
    pub fn scale_x_mut(&mut self, factor: i64)
        requires
            fits(fx_mul(old(self).x as int, factor as int)),
        ensures
            final(self).x == fx_mul(old(self).x as int, factor as int),
            final(self).y == old(self).y,
    {
        self.x = scale_value(self.x, factor);
    }

    /// Multiplies the vertical component by `factor`, in place.
    pub fn scale_y_mut(&mut self, factor: i64)
        requires
            fits(fx_mul(old(self).y as int, factor as int)),
        ensures
            final(self).x == old(self).x,
            final(self).y == fx_mul(old(self).y as int, factor as int),
    {
        self.y = scale_value(self.y, factor);
    }
}

} // verus!
