use vstd::prelude::*;

verus! {

/// Number of fixed-point units in one logical pixel.
pub const PIXEL_UNITS: i64 = 64;

/// Number of sub-pixel positions a glyph origin is bucketed into, per axis.
pub const SUBPIXEL_VARIANTS: i64 = 4;

/// Largest magnitude of a coordinate (in fixed-point units) that the
/// geometry operations accept; keeps every product in range.
pub const MAX_COORD: i64 = 0x4000_0000;

/// Largest accepted scale factor, in fixed-point units (64 times 64).
pub const MAX_SCALE: i64 = 4096;

/// A logical length, stored in fixed-point units of 1/64 of a pixel.
#[derive(Clone, Copy, Debug, PartialEq, Eq, Structural)]
pub struct Pixels(pub i64);

/// A display scale factor, in fixed-point units of 1/64 (128 is 2.0).
#[derive(Clone, Copy, Debug, PartialEq, Eq, Structural)]
pub struct ScaleFactor(pub i64);

#[derive(Clone, Copy, Debug, PartialEq, Eq, Structural)]
pub struct Point {
    pub x: Pixels,
    pub y: Pixels,
}

#[derive(Clone, Copy, Debug, PartialEq, Eq, Structural)]
pub struct Size {
    pub width: Pixels,
    pub height: Pixels,
}

#[derive(Clone, Copy, Debug, PartialEq, Eq, Structural)]
pub struct Bounds {
    pub origin: Point,
    pub size: Size,
}

/// Floor division by a positive divisor (rounds towards negative infinity).
pub open spec fn floor_div(a: int, d: int) -> int {
    a / d
}

pub open spec fn coord_ok(p: Pixels) -> bool {
    -MAX_COORD <= p.0 <= MAX_COORD
}

/// The range a scaled coordinate may take.
pub open spec fn wide_ok(p: Pixels) -> bool {
    -MAX_COORD * MAX_SCALE <= p.0 <= MAX_COORD * MAX_SCALE
}

pub open spec fn point_ok(p: Point) -> bool {
    coord_ok(p.x) && coord_ok(p.y)
}

pub open spec fn scale_ok(s: ScaleFactor) -> bool {
    0 < s.0 <= MAX_SCALE
}

/// A length multiplied by a scale factor, rounded down to a fixed-point unit.
pub open spec fn scaled(p: Pixels, s: ScaleFactor) -> Pixels {
    Pixels(floor_div(p.0 * s.0, PIXEL_UNITS as int) as i64)
}

/// The whole-pixel part of a length, rounded down.
pub open spec fn floored(p: Pixels) -> Pixels {
    Pixels((floor_div(p.0 as int, PIXEL_UNITS as int) * PIXEL_UNITS) as i64)
}

/// Which of the sub-pixel buckets the fractional part of a length falls into.
pub open spec fn subpixel_bucket(p: Pixels) -> u8 {
    ((p.0 as int % PIXEL_UNITS as int) * (SUBPIXEL_VARIANTS as int) / (PIXEL_UNITS as int)) as u8
}

fn floor_div_units(a: i64) -> (r: i64)
    ensures
        r == floor_div(a as int, PIXEL_UNITS as int),
{
    let q: i64 = a / PIXEL_UNITS;
    let m: i64 = a % PIXEL_UNITS;
    if m < 0 {
        q - 1
    } else {
        q
    }
}

impl Pixels {
    /// This length multiplied by `s`, rounded down to a fixed-point unit.
    pub fn scale(self, s: ScaleFactor) -> (r: Pixels)
        requires
            coord_ok(self),
            scale_ok(s),
        ensures
            r == scaled(self, s),
            wide_ok(r),
    {
        assert(-MAX_COORD * MAX_SCALE <= self.0 * s.0 <= MAX_COORD * MAX_SCALE) by (nonlinear_arith)
            requires
                coord_ok(self),
                scale_ok(s),
        ;
        Pixels(floor_div_units(self.0 * s.0))
    }

    /// This length rounded down to a whole pixel.
    pub fn floor(self) -> (r: Pixels)
        requires
            wide_ok(self),
        ensures
            r == floored(self),
            self.0 - PIXEL_UNITS < r.0 <= self.0,
    {
        Pixels(floor_div_units(self.0) * PIXEL_UNITS)
    }

    /// The sub-pixel bucket of this length's fractional part.
    pub fn subpixel_variant(self) -> (r: u8)
        ensures
            r == subpixel_bucket(self),
            r < SUBPIXEL_VARIANTS,
    {
        let m: i64 = self.0 % PIXEL_UNITS;
        let frac: i64 = if m < 0 {
            m + PIXEL_UNITS
        } else {
            m
        };
        ((frac * SUBPIXEL_VARIANTS) / PIXEL_UNITS) as u8
    }
}

impl Point {
    pub open spec fn scaled_by(self, s: ScaleFactor) -> Point {
        Point { x: scaled(self.x, s), y: scaled(self.y, s) }
    }

    /// Both coordinates multiplied by `s`.
    pub fn scale(self, s: ScaleFactor) -> (r: Point)
        requires
            point_ok(self),
            scale_ok(s),
        ensures
            r == self.scaled_by(s),
            wide_ok(r.x),
            wide_ok(r.y),
    {
        Point { x: self.x.scale(s), y: self.y.scale(s) }
    }
}

impl Size {
    pub open spec fn is_empty_spec(self) -> bool {
        self.width.0 <= 0 || self.height.0 <= 0
    }
}

impl Bounds {
    /// Whether these bounds enclose no area.
    pub fn is_empty(&self) -> (r: bool)
        ensures
            r == self.size.is_empty_spec(),
    {
        self.size.width.0 <= 0 || self.size.height.0 <= 0
    }
}

} // verus!
