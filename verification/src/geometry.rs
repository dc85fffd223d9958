//! Points, sizes, rectangles, affine transforms and the device pixel ratio.
//!
//! Logical coordinates are whole numbers. Whatever is scaled or divided is
//! carried as a [`Ratio`], a numerator over a denominator, and is never
//! rounded here.

use vstd::prelude::*;

verus! {

/// An exact fraction: `numerator / denominator`. A zero denominator is kept as
/// it is; the host decides what a division by zero draws.
#[derive(Clone, Copy, Debug, PartialEq, Eq, Structural)]
pub struct Ratio {
    pub numerator: i128,
    pub denominator: u32,
}

impl Ratio {
    /// The fraction `value / 1`.
    pub open spec fn whole(value: int) -> Ratio {
        Ratio { numerator: value as i128, denominator: 1 }
    }

    /// The whole number `value` as a fraction.
    pub fn from_whole(value: i64) -> (r: Ratio)
        ensures
            r == Ratio::whole(value as int),
            r.numerator == value,
            r.denominator == 1,
    {
        Ratio { numerator: value as i128, denominator: 1 }
    }

    /// The fraction `numerator / denominator` of two magnitudes.
    pub fn of_lengths(numerator: u32, denominator: u32) -> (r: Ratio)
        ensures
            r.numerator == numerator,
            r.denominator == denominator,
    {
        Ratio { numerator: numerator as i128, denominator }
    }
}

/// A point in logical coordinates.
#[derive(Clone, Copy, Debug, PartialEq, Eq, Structural)]
pub struct Point2D {
    pub x: i64,
    pub y: i64,
}

/// A width and a height; neither can be negative.
#[derive(Clone, Copy, Debug, PartialEq, Eq, Structural)]
pub struct Size2D {
    pub width: u32,
    pub height: u32,
}

impl Default for Size2D {
    fn default() -> (s: Size2D)
        ensures
            s == (Size2D { width: 0, height: 0 }),
    {
        Size2D { width: 0, height: 0 }
    }
}

/// A rectangle: the position of its corner and its size. A rectangle without
/// area is valid.
#[derive(Clone, Copy, Debug, PartialEq, Eq, Structural)]
pub struct Rect2D {
    pub position: Point2D,
    pub size: Size2D,
}

impl Rect2D {
    /// The rectangle of the given size whose corner is at `(x, y)`.
    pub fn new(width: u32, height: u32, x: i64, y: i64) -> (r: Rect2D)
        ensures
            r == (Rect2D { position: Point2D { x, y }, size: Size2D { width, height } }),
    {
        Rect2D { position: Point2D { x, y }, size: Size2D { width, height } }
    }
}

/// The six coefficients of an affine map, in the order in which a canvas
/// takes them: `x' = a x + c y + e`, `y' = b x + d y + f`.
#[derive(Clone, Copy, Debug, PartialEq, Eq, Structural)]
pub struct Matrix2D {
    pub a: Ratio,
    pub b: Ratio,
    pub c: Ratio,
    pub d: Ratio,
    pub e: Ratio,
    pub f: Ratio,
}

impl Matrix2D {
    /// The matrix that moves by `(e, f)` and does nothing else.
    pub open spec fn translation(e: Ratio, f: Ratio) -> Matrix2D {
        Matrix2D {
            a: Ratio::whole(1),
            b: Ratio::whole(0),
            c: Ratio::whole(0),
            d: Ratio::whole(1),
            e,
            f,
        }
    }

    /// The matrix that moves by `(e, f)` and does nothing else.
    pub fn new_translation(e: Ratio, f: Ratio) -> (m: Matrix2D)
        ensures
            m == Matrix2D::translation(e, f),
    {
        Matrix2D {
            a: Ratio::from_whole(1),
            b: Ratio::from_whole(0),
            c: Ratio::from_whole(0),
            d: Ratio::from_whole(1),
            e,
            f,
        }
    }
}

/// A local affine transform: a translation and the four coefficients of its
/// linear part (rotation, scale and shear).
#[derive(Clone, Copy, Debug, PartialEq, Eq, Structural)]
pub struct Transform2D {
    pub position: Point2D,
    pub a: Ratio,
    pub b: Ratio,
    pub c: Ratio,
    pub d: Ratio,
}

impl Transform2D {
    /// The transform that changes nothing.
    pub open spec fn spec_identity() -> Transform2D {
        Transform2D {
            position: Point2D { x: 0, y: 0 },
            a: Ratio::whole(1),
            b: Ratio::whole(0),
            c: Ratio::whole(0),
            d: Ratio::whole(1),
        }
    }

    /// The matrix of this transform: its linear part, then its position.
    pub open spec fn matrix(self) -> Matrix2D {
        Matrix2D {
            a: self.a,
            b: self.b,
            c: self.c,
            d: self.d,
            e: Ratio::whole(self.position.x as int),
            f: Ratio::whole(self.position.y as int),
        }
    }

    /// The transform that changes nothing.
    pub fn identity() -> (t: Transform2D)
        ensures
            t == Transform2D::spec_identity(),
    {
        Transform2D {
            position: Point2D { x: 0, y: 0 },
            a: Ratio::from_whole(1),
            b: Ratio::from_whole(0),
            c: Ratio::from_whole(0),
            d: Ratio::from_whole(1),
        }
    }

    /// The pure translation to `position`.
    pub fn at(position: Point2D) -> (t: Transform2D)
        ensures
            t == (Transform2D { position, ..Transform2D::spec_identity() }),
    {
        Transform2D {
            position,
            a: Ratio::from_whole(1),
            b: Ratio::from_whole(0),
            c: Ratio::from_whole(0),
            d: Ratio::from_whole(1),
        }
    }

    /// Derives the six-coefficient matrix from the fields, and from nothing
    /// else.
    pub fn to_matrix(&self) -> (m: Matrix2D)
        ensures
            m == self.matrix(),
    {
        Matrix2D {
            a: self.a,
            b: self.b,
            c: self.c,
            d: self.d,
            e: Ratio::from_whole(self.position.x),
            f: Ratio::from_whole(self.position.y),
        }
    }
}

impl Default for Transform2D {
    fn default() -> (t: Transform2D)
        ensures
            t == Transform2D::spec_identity(),
    {
        Transform2D::identity()
    }
}

/// The identity transform has the identity matrix.
pub proof fn lemma_identity_matrix()
    ensures
        Transform2D::spec_identity().matrix() == Matrix2D::translation(
            Ratio::whole(0),
            Ratio::whole(0),
        ),
{
}

/// The largest magnitude that [`PixelRatio::scaled`] is exact on: three times
/// the range of a coordinate.
pub open spec fn scale_limit() -> int {
    3 * 0x8000_0000_0000_0000int
}

/// The number of device pixels per logical unit, as a fraction.
#[derive(Clone, Copy, Debug, PartialEq, Eq, Structural)]
pub struct PixelRatio {
    pub numerator: u32,
    pub denominator: u32,
}

impl PixelRatio {
    /// The ratio one: a device pixel per logical unit.
    pub open spec fn spec_unit() -> PixelRatio {
        PixelRatio { numerator: 1, denominator: 1 }
    }

    /// `value` times this ratio.
    pub open spec fn scaled(self, value: int) -> Ratio {
        Ratio { numerator: (value * self.numerator) as i128, denominator: self.denominator }
    }

    /// The ratio one.
    pub fn unit() -> (r: PixelRatio)
        ensures
            r == PixelRatio::spec_unit(),
    {
        PixelRatio { numerator: 1, denominator: 1 }
    }

    /// Within the limit the product fits, so that the numerator of
    /// [`PixelRatio::scaled`] is the product itself.
    pub proof fn lemma_scaled_exact(self, value: int)
        requires
            -scale_limit() <= value <= scale_limit(),
        ensures
            self.scaled(value).numerator == value * self.numerator,
            self.scaled(value).denominator == self.denominator,
    {
        let n = self.numerator as int;
        assert(-scale_limit() * 0x1_0000_0000 <= value * n <= scale_limit() * 0x1_0000_0000)
            by (nonlinear_arith)
            requires
                -scale_limit() <= value <= scale_limit(),
                0 <= n < 0x1_0000_0000,
        ;
    }

    /// `value` times this ratio, for any `value` within the limit.
    pub(crate) fn scale_wide(&self, value: i128) -> (r: Ratio)
        requires
            -scale_limit() <= value <= scale_limit(),
        ensures
            r == self.scaled(value as int),
            r.numerator == value * self.numerator,
    {
        proof {
            self.lemma_scaled_exact(value as int);
        }
        Ratio { numerator: value * (self.numerator as i128), denominator: self.denominator }
    }

    /// A coordinate in device pixels.
    pub fn scale(&self, value: i64) -> (r: Ratio)
        ensures
            r == self.scaled(value as int),
            r.numerator == value * self.numerator,
            r.denominator == self.denominator,
    {
        self.scale_wide(value as i128)
    }

    /// The opposite of a coordinate, in device pixels.
    pub fn scale_negated(&self, value: i64) -> (r: Ratio)
        ensures
            r == self.scaled(-(value as int)),
            r.numerator == -(value * self.numerator),
            r.denominator == self.denominator,
    {
        let r = self.scale_wide(-(value as i128));
        assert((-(value as int)) * self.numerator == -(value * self.numerator))
            by (nonlinear_arith);
        r
    }

    /// A magnitude in device pixels.
    pub fn scale_length(&self, value: u32) -> (r: Ratio)
        ensures
            r == self.scaled(value as int),
            r.numerator == value * self.numerator,
            r.denominator == self.denominator,
    {
        self.scale_wide(value as i128)
    }

    /// The sum of three coordinates, in device pixels.
    pub fn scale_sum(&self, a: i64, b: i64, c: i64) -> (r: Ratio)
        ensures
            r == self.scaled(a + b + c),
            r.numerator == (a + b + c) * self.numerator,
            r.denominator == self.denominator,
    {
        self.scale_wide((a as i128) + (b as i128) + (c as i128))
    }
}

} // verus!
