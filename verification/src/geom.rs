//! Integer pixel geometry.
//!
//! All coordinates live in the band `[-MAX_COORD, MAX_COORD]`, which is
//! wide enough for any real screen while leaving so much headroom in an
//! `i64` that sums of a handful of coordinates can never wrap. Arithmetic
//! that would leave the band clamps to its edge, so malformed input
//! degrades gracefully instead of overflowing.

use vstd::prelude::*;

verus! {

/// Half-width of the coordinate band (2^46 pixels).
pub const MAX_COORD: i64 = 0x4000_0000_0000;

/// A coordinate that lies inside the band.
pub open spec fn in_range(v: i64) -> bool {
    -MAX_COORD <= v <= MAX_COORD
}

/// Clamp an arbitrary mathematical value into the coordinate band.
pub open spec fn clamp_coord(v: int) -> int {
    if v > MAX_COORD as int {
        MAX_COORD as int
    } else if v < -MAX_COORD as int {
        -MAX_COORD as int
    } else {
        v
    }
}

/// Sum of two coordinates, clamped back into the band.
pub open spec fn cadd(a: int, b: int) -> int {
    clamp_coord(a + b)
}

/// Difference of two coordinates, clamped back into the band.
pub open spec fn csub(a: int, b: int) -> int {
    clamp_coord(a - b)
}

/// Clamped addition of two in-band coordinates.
pub fn add_coord(a: i64, b: i64) -> (r: i64)
    requires
        in_range(a),
        in_range(b),
    ensures
        r == cadd(a as int, b as int),
        in_range(r),
{
    let s = a + b;
    if s > MAX_COORD {
        MAX_COORD
    } else if s < -MAX_COORD {
        -MAX_COORD
    } else {
        s
    }
}

/// Clamped subtraction of two in-band coordinates.
pub fn sub_coord(a: i64, b: i64) -> (r: i64)
    requires
        in_range(a),
        in_range(b),
    ensures
        r == csub(a as int, b as int),
        in_range(r),
{
    let s = a - b;
    if s > MAX_COORD {
        MAX_COORD
    } else if s < -MAX_COORD {
        -MAX_COORD
    } else {
        s
    }
}

/// `depth * unit`, clamped to the top of the band. Used for indentation,
/// where `unit` is the width of one indent step.
pub open spec fn cmul_indent(depth: nat, unit: int) -> int {
    if depth * unit > MAX_COORD as int {
        MAX_COORD as int
    } else {
        depth * unit
    }
}

/// Clamped indentation width for a row `depth` levels deep.
pub fn indent_px(depth: usize, unit: i64) -> (r: i64)
    requires
        0 <= unit <= MAX_COORD,
    ensures
        r == cmul_indent(depth as nat, unit as int),
        0 <= r <= MAX_COORD,
{
    if unit == 0 {
        assert(depth as nat * 0 == 0) by (nonlinear_arith);
        0
    } else if depth as u64 >= 0x4000_0000_0000u64 {
        assert(depth as nat * unit as int >= MAX_COORD as int) by (nonlinear_arith)
            requires
                depth as nat >= MAX_COORD as int,
                unit as int >= 1,
        ;
        MAX_COORD
    } else {
        let d = depth as i64;
        match d.checked_mul(unit) {
            Some(p) => {
                if p > MAX_COORD {
                    MAX_COORD
                } else {
                    assert(d as int * unit as int >= 0) by (nonlinear_arith)
                        requires
                            d as int >= 0,
                            unit as int >= 0,
                    ;
                    p
                }
            },
            None => {
                assert(d as int * unit as int >= 0) by (nonlinear_arith)
                    requires
                        d as int >= 0,
                        unit as int >= 0,
                    ;
                MAX_COORD
            },
        }
    }
}

/// The midpoint of `[lo, hi]`, rounded toward `lo`.
pub open spec fn mid_spec(lo: int, hi: int) -> int {
    lo + (hi - lo) / 2
}

/// Computes `mid_spec` for an ordered pair of in-band coordinates.
pub fn mid_point(lo: i64, hi: i64) -> (r: i64)
    requires
        in_range(lo),
        in_range(hi),
        lo <= hi,
    ensures
        r == mid_spec(lo as int, hi as int),
        lo <= r <= hi,
        in_range(r),
{
    let len = (hi - lo) as u64;
    let half = (len / 2) as i64;
    lo + half
}

/// A point, in pixels.
#[derive(Clone, Copy, Debug, PartialEq, Eq, Structural)]
pub struct Pos2 {
    pub x: i64,
    pub y: i64,
}

/// A displacement between two points, in pixels.
#[derive(Clone, Copy, Debug, PartialEq, Eq, Structural)]
pub struct Vec2 {
    pub x: i64,
    pub y: i64,
}

impl Pos2 {
    pub open spec fn wf(self) -> bool {
        in_range(self.x) && in_range(self.y)
    }
}

impl Vec2 {
    pub open spec fn wf(self) -> bool {
        in_range(self.x) && in_range(self.y)
    }
}

/// A vertical pixel extent: the top and bottom of a row.
#[derive(Clone, Copy, Debug, PartialEq, Eq, Structural)]
pub struct Rangef {
    pub min: i64,
    pub max: i64,
}

impl Rangef {
    pub open spec fn wf(self) -> bool {
        in_range(self.min) && in_range(self.max)
    }
}

/// An axis-aligned rectangle.
#[derive(Clone, Copy, Debug, PartialEq, Eq, Structural)]
pub struct Rect {
    pub min: Pos2,
    pub max: Pos2,
}

impl Rect {
    pub open spec fn wf(self) -> bool {
        self.min.wf() && self.max.wf()
    }

    /// The inverted rectangle that contains no point; stands in for the
    /// geometry of a row that was never laid out.
    pub fn nothing() -> (r: Rect)
        ensures
            r == Rect::nothing_spec(),
            r.wf(),
    {
        Rect {
            min: Pos2 { x: MAX_COORD, y: MAX_COORD },
            max: Pos2 { x: -MAX_COORD, y: -MAX_COORD },
        }
    }

    pub open spec fn nothing_spec() -> Rect {
        Rect {
            min: Pos2 { x: MAX_COORD as i64, y: MAX_COORD as i64 },
            max: Pos2 { x: -MAX_COORD as i64, y: -MAX_COORD as i64 },
        }
    }

    pub open spec fn contains_spec(self, p: Pos2) -> bool {
        self.min.x <= p.x <= self.max.x && self.min.y <= p.y <= self.max.y
    }

    /// Whether `p` lies inside the rectangle, edges included.
    pub fn contains(&self, p: Pos2) -> (r: bool)
        ensures
            r == self.contains_spec(p),
    {
        self.min.x <= p.x && p.x <= self.max.x && self.min.y <= p.y && p.y <= self.max.y
    }

    /// The vertical extent of the rectangle.
    pub fn y_range(&self) -> (r: Rangef)
        ensures
            r == (Rangef { min: self.min.y, max: self.max.y }),
    {
        Rangef { min: self.min.y, max: self.max.y }
    }
}

} // verus!
