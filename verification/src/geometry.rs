//! Geometry primitives: points, rectangles, and the containment test that
//! drives all pointer interaction.

use vstd::prelude::*;

verus! {

/// Saturating addition on the `u32` range, as mathematical integers.
pub open spec fn sat_add_u32(a: int, b: int) -> int {
    if a + b > u32::MAX {
        u32::MAX as int
    } else {
        a + b
    }
}

/// Saturating subtraction on the `u32` range, as mathematical integers.
pub open spec fn sat_sub_u32(a: int, b: int) -> int {
    if a - b < 0 {
        0
    } else {
        a - b
    }
}

/// A 2-D pixel coordinate or extent, origin at the top left.
#[derive(Debug, Clone, Copy, PartialEq, Eq, PartialOrd, Ord, Hash, Structural)]
pub struct Vec2 {
    pub x: u32,
    pub y: u32,
}

impl Vec2 {
    pub fn new(x: u32, y: u32) -> (v: Self)
        ensures
            v.x == x,
            v.y == y,
    {
        Self { x, y }
    }

    pub fn zero() -> (v: Self)
        ensures
            v.x == 0,
            v.y == 0,
    {
        Vec2 { x: 0, y: 0 }
    }

    /// Component-wise saturating addition.
    pub fn add(a: Vec2, b: Vec2) -> (v: Self)
        ensures
            v.x == sat_add_u32(a.x as int, b.x as int),
            v.y == sat_add_u32(a.y as int, b.y as int),
    {
        Vec2 { x: a.x.saturating_add(b.x), y: a.y.saturating_add(b.y) }
    }

    /// Component-wise saturating subtraction.
    pub fn sub(a: Vec2, b: Vec2) -> (v: Self)
        ensures
            v.x == sat_sub_u32(a.x as int, b.x as int),
            v.y == sat_sub_u32(a.y as int, b.y as int),
    {
        Vec2 { x: a.x.saturating_sub(b.x), y: a.y.saturating_sub(b.y) }
    }

    /// Component-wise division by a scalar.
    pub fn div_cmp(a: Vec2, b: u32) -> (v: Self)
        requires
            b != 0,
        ensures
            v.x == a.x as int / b as int,
            v.y == a.y as int / b as int,
    {
        Vec2 { x: a.x / b, y: a.y / b }
    }
}

/// Component-wise saturating addition, as a value.
pub open spec fn vec2_sat_add(a: Vec2, b: Vec2) -> Vec2 {
    Vec2 { x: sat_add_u32(a.x as int, b.x as int) as u32, y: sat_add_u32(a.y as int, b.y as int) as u32 }
}

/// Component-wise saturating subtraction, as a value.
pub open spec fn vec2_sat_sub(a: Vec2, b: Vec2) -> Vec2 {
    Vec2 { x: sat_sub_u32(a.x as int, b.x as int) as u32, y: sat_sub_u32(a.y as int, b.y as int) as u32 }
}

/// Component-wise division, as a value.
pub open spec fn vec2_div(a: Vec2, b: int) -> Vec2 {
    Vec2 { x: (a.x as int / b) as u32, y: (a.y as int / b) as u32 }
}

/// Whether `p` lies in `r`, inclusive on all four edges.
pub open spec fn rect_contains(r: Rect, p: Vec2) -> bool {
    &&& r.top_left.x <= p.x <= r.top_left.x + r.size.x
    &&& r.top_left.y <= p.y <= r.top_left.y + r.size.y
}

/// An axis-aligned box. Rectangles are the sole widget identity used for
/// interaction-state lookups: two widgets are the same for state purposes
/// iff their rectangles are equal, so callers must give interactive widgets
/// stable, unique rectangles across frames.
#[derive(Debug, Clone, Copy, PartialEq, Eq, PartialOrd, Ord, Hash, Structural)]
pub struct Rect {
    pub top_left: Vec2,
    pub size: Vec2,
}

impl Rect {
    pub fn contains(&self, point: Vec2) -> (b: bool)
        ensures
            b == rect_contains(*self, point),
    {
        point.x >= self.top_left.x && point.x - self.top_left.x <= self.size.x
            && point.y >= self.top_left.y && point.y - self.top_left.y <= self.size.y
    }
}

} // verus!
