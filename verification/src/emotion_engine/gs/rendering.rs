use vstd::prelude::*;

use crate::bits::{bits_u32, Bits};

verus! {

/// A rectangle: the points with `x_start <= x < x_end` and `y_start <= y < y_end`.
#[derive(Debug, PartialEq, Eq, Structural, Clone, Copy)]
pub struct Rect<T> {
    pub x_start: T,
    pub y_start: T,
    pub x_end: T,
    pub y_end: T,
}

impl Rect<u16> {
    /// Whether the rectangle holds no point.
    pub fn is_empty(&self) -> (r: bool)
        ensures
            r == (self.x_start >= self.x_end || self.y_start >= self.y_end),
    {
        self.x_start >= self.x_end || self.y_start >= self.y_end
    }

    /// Whether the point (`x`, `y`) lies in the rectangle.
    pub fn contains(&self, x: u16, y: u16) -> (r: bool)
        ensures
            r == (self.x_start <= x < self.x_end && self.y_start <= y < self.y_end),
    {
        self.x_start <= x && x < self.x_end && self.y_start <= y && y < self.y_end
    }

    pub fn width(&self) -> (r: u16)
        requires
            self.x_start <= self.x_end,
        ensures
            r == self.x_end - self.x_start,
    {
        self.x_end - self.x_start
    }

    pub fn height(&self) -> (r: u16)
        requires
            self.y_start <= self.y_end,
        ensures
            r == self.y_end - self.y_start,
    {
        self.y_end - self.y_start
    }

    /// The number of points, which must fit in 16 bits.
    pub fn area(&self) -> (r: u16)
        requires
            self.x_start <= self.x_end,
            self.y_start <= self.y_end,
            (self.x_end - self.x_start) * (self.y_end - self.y_start) <= u16::MAX,
        ensures
            r == (self.x_end - self.x_start) * (self.y_end - self.y_start),
    {
        self.width() * self.height()
    }

    /// The smallest rectangle whose corners bound both rectangles.
    pub open spec fn spec_union(self, other: Self) -> Self {
        Rect {
            x_start: if self.x_start <= other.x_start { self.x_start } else { other.x_start },
            y_start: if self.y_start <= other.y_start { self.y_start } else { other.y_start },
            x_end: if self.x_end >= other.x_end { self.x_end } else { other.x_end },
            y_end: if self.y_end >= other.y_end { self.y_end } else { other.y_end },
        }
    }

    /// The smallest rectangle whose corners bound both rectangles.
    pub fn union(&self, other: &Self) -> (r: Self)
        ensures
            r == self.spec_union(*other),
            r.x_start == (if self.x_start <= other.x_start {
                self.x_start
            } else {
                other.x_start
            }),
            r.y_start == (if self.y_start <= other.y_start {
                self.y_start
            } else {
                other.y_start
            }),
            r.x_end == (if self.x_end >= other.x_end {
                self.x_end
            } else {
                other.x_end
            }),
            r.y_end == (if self.y_end >= other.y_end {
                self.y_end
            } else {
                other.y_end
            }),
    {
        Rect {
            x_start: if self.x_start <= other.x_start {
                self.x_start
            } else {
                other.x_start
            },
            y_start: if self.y_start <= other.y_start {
                self.y_start
            } else {
                other.y_start
            },
            x_end: if self.x_end >= other.x_end {
                self.x_end
            } else {
                other.x_end
            },
            y_end: if self.y_end >= other.y_end {
                self.y_end
            } else {
                other.y_end
            },
        }
    }
}

/// The union of two rectangles contains every point of either.
pub proof fn law_union_contains(a: Rect<u16>, b: Rect<u16>, u: Rect<u16>, x: u16, y: u16)
    requires
        u.x_start == (if a.x_start <= b.x_start { a.x_start } else { b.x_start }),
        u.y_start == (if a.y_start <= b.y_start { a.y_start } else { b.y_start }),
        u.x_end == (if a.x_end >= b.x_end { a.x_end } else { b.x_end }),
        u.y_end == (if a.y_end >= b.y_end { a.y_end } else { b.y_end }),
        (a.x_start <= x < a.x_end && a.y_start <= y < a.y_end) || (b.x_start <= x < b.x_end
            && b.y_start <= y < b.y_end),
    ensures
        u.x_start <= x < u.x_end && u.y_start <= y < u.y_end,
{
}

/// A colour with alpha.
#[derive(Debug, PartialEq, Eq, Structural, Clone, Copy)]
pub struct Rgba {
    pub r: u8,
    pub g: u8,
    pub b: u8,
    pub a: u8,
}

proof fn lemma_rgba_fields(raw: u32)
    by (bit_vector)
    ensures
        bits_u32(raw, 0, 8) < 0x100,
        bits_u32(raw, 8, 16) < 0x100,
        bits_u32(raw, 16, 24) < 0x100,
        bits_u32(raw, 24, 32) < 0x100,
{
}

impl Rgba {
    /// R (bits 0..8), G (bits 8..16), B (bits 16..24), A (bits 24..32).
    pub open spec fn spec_from_raw(raw: u32) -> Rgba {
        Rgba {
            r: bits_u32(raw, 0, 8) as u8,
            g: bits_u32(raw, 8, 16) as u8,
            b: bits_u32(raw, 16, 24) as u8,
            a: bits_u32(raw, 24, 32) as u8,
        }
    }

    pub fn from_raw(raw: u32) -> (r: Rgba)
        ensures
            r == Rgba::spec_from_raw(raw),
    {
        proof {
            lemma_rgba_fields(raw);
        }
        Rgba {
            r: raw.bits(0, 8) as u8,
            g: raw.bits(8, 16) as u8,
            b: raw.bits(16, 24) as u8,
            a: raw.bits(24, 32) as u8,
        }
    }
}

impl From<u32> for Rgba {
    fn from(raw: u32) -> (r: Rgba) {
        Rgba::from_raw(raw)
    }
}

impl vstd::std_specs::convert::FromSpecImpl<u32> for Rgba {
    open spec fn obeys_from_spec() -> bool {
        true
    }

    open spec fn from_spec(raw: u32) -> Rgba {
        Rgba::spec_from_raw(raw)
    }
}

} // verus!
