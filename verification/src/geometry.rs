//! Points, sizes and rectangles in logical pixels.
use crate::bits::Double;
use vstd::prelude::*;

verus! {

#[derive(Clone, Copy, Debug, PartialEq, Eq, Structural)]
pub struct Point {
    pub x: i32,
    pub y: i32,
}

#[derive(Clone, Copy, Debug, PartialEq, Eq, Structural)]
pub struct Size {
    pub w: i32,
    pub h: i32,
}

#[derive(Clone, Copy, Debug, PartialEq, Eq, Structural)]
pub struct Rect {
    pub loc: Point,
    pub size: Size,
}

/// A place on the screen, with fractions of a pixel.
#[derive(Clone, Copy, Debug, PartialEq, Eq, Structural)]
pub struct Position {
    pub x: Double,
    pub y: Double,
}

/// Whether a number is an `i32`.
pub open spec fn fits(n: int) -> bool {
    i32::MIN <= n <= i32::MAX
}

pub fn is_i32(n: i128) -> (r: bool)
    ensures
        r == fits(n as int),
{
    -0x8000_0000 <= n && n <= 0x7FFF_FFFF
}

/// A rectangle of any size.
pub ghost struct Slot {
    pub x: int,
    pub y: int,
    pub w: int,
    pub h: int,
}

/// Whether the coordinates of a rectangle can be represented.
pub open spec fn slot_fits(s: Slot) -> bool {
    &&& fits(s.x)
    &&& fits(s.y)
    &&& fits(s.w)
    &&& fits(s.h)
}

/// Whether two rectangles have no point in common.
pub open spec fn apart(s: Slot, t: Slot) -> bool {
    s.x + s.w <= t.x || t.x + t.w <= s.x || s.y + s.h <= t.y || t.y + t.h <= s.y
}

/// Whether a pixel lies in a rectangle.
pub open spec fn covers(s: Slot, x: int, y: int) -> bool {
    s.x <= x < s.x + s.w && s.y <= y < s.y + s.h
}

impl Rect {
    pub open spec fn slot(self) -> Slot {
        Slot {
            x: self.loc.x as int,
            y: self.loc.y as int,
            w: self.size.w as int,
            h: self.size.h as int,
        }
    }
}

/// A rectangle whose coordinates can be represented.
pub open spec fn rect_of(s: Slot) -> Rect {
    Rect {
        loc: Point { x: s.x as i32, y: s.y as i32 },
        size: Size { w: s.w as i32, h: s.h as i32 },
    }
}

/// The greater of two integers.
pub open spec fn larger(a: int, b: int) -> int {
    if a < b {
        b
    } else {
        a
    }
}

/// The smaller of two integers.
pub open spec fn smaller(a: int, b: int) -> int {
    if b < a {
        b
    } else {
        a
    }
}

pub fn max_i32(a: i32, b: i32) -> (r: i32)
    ensures
        r == larger(a as int, b as int),
{
    if a < b {
        b
    } else {
        a
    }
}

pub fn min_i32(a: i32, b: i32) -> (r: i32)
    ensures
        r == smaller(a as int, b as int),
{
    if b < a {
        b
    } else {
        a
    }
}

} // verus!
