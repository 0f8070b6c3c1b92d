//! Rectangles and four-sided inset records in logical coordinates.

use vstd::prelude::*;

verus! {

/// A one-dimensional length in layout units.
pub type Length = i64;

/// A two-dimensional vector in logical (inline, block) coordinates.
#[derive(Clone, Copy, Debug, PartialEq, Eq, Structural)]
pub struct Vec2 {
    pub inline: Length,
    pub block: Length,
}

/// A rectangle given by its start corner and its size.
#[derive(Clone, Copy, Debug, PartialEq, Eq, Structural)]
pub struct Rect {
    pub start_corner: Vec2,
    pub size: Vec2,
}

/// A four-sided inset record (padding, border or margin widths).
#[derive(Clone, Copy, Debug, PartialEq, Eq, Structural)]
pub struct Sides {
    pub inline_start: Length,
    pub inline_end: Length,
    pub block_start: Length,
    pub block_end: Length,
}

/// Whether an integer lies within the range of `Length`.
pub open spec fn fits_length(x: int) -> bool {
    i64::MIN <= x <= i64::MAX
}

/// Whether inflating `r` outward by `s` stays within `Length` range,
/// including the partial sums the computation goes through.
pub open spec fn sides_fit(r: Rect, s: Sides) -> bool {
    &&& fits_length(r.start_corner.inline - s.inline_start)
    &&& fits_length(r.start_corner.block - s.block_start)
    &&& fits_length(r.size.inline + s.inline_start)
    &&& fits_length(r.size.inline + s.inline_start + s.inline_end)
    &&& fits_length(r.size.block + s.block_start)
    &&& fits_length(r.size.block + s.block_start + s.block_end)
}

/// The rectangle `r` expanded outward by the insets `s`: the start
/// corner moves back by the start insets and the size grows by the sum
/// of the two insets of each axis.
pub open spec fn inflate_spec(r: Rect, s: Sides) -> Rect {
    Rect {
        start_corner: Vec2 {
            inline: (r.start_corner.inline - s.inline_start) as i64,
            block: (r.start_corner.block - s.block_start) as i64,
        },
        size: Vec2 {
            inline: (r.size.inline + s.inline_start + s.inline_end) as i64,
            block: (r.size.block + s.block_start + s.block_end) as i64,
        },
    }
}

impl Vec2 {
    /// The zero vector.
    pub open spec fn zero_spec() -> Vec2 {
        Vec2 { inline: 0, block: 0 }
    }

    pub fn zero() -> (v: Vec2)
        ensures
            v == Vec2::zero_spec(),
    {
        Vec2 { inline: 0, block: 0 }
    }
}

impl Rect {
    /// The rectangle with zero corner and zero size.
    pub open spec fn zero_spec() -> Rect {
        Rect { start_corner: Vec2::zero_spec(), size: Vec2::zero_spec() }
    }

    pub fn zero() -> (r: Rect)
        ensures
            r == Rect::zero_spec(),
    {
        Rect { start_corner: Vec2::zero(), size: Vec2::zero() }
    }

    /// Expand this rectangle outward by the given insets.
    pub fn inflate(&self, s: &Sides) -> (r: Rect)
        requires
            sides_fit(*self, *s),
        ensures
            r == inflate_spec(*self, *s),
    {
        Rect {
            start_corner: Vec2 {
                inline: self.start_corner.inline - s.inline_start,
                block: self.start_corner.block - s.block_start,
            },
            size: Vec2 {
                inline: self.size.inline + s.inline_start + s.inline_end,
                block: self.size.block + s.block_start + s.block_end,
            },
        }
    }
}

impl Sides {
    /// The all-zero inset record.
    pub open spec fn zero_spec() -> Sides {
        Sides { inline_start: 0, inline_end: 0, block_start: 0, block_end: 0 }
    }

    pub fn zero() -> (s: Sides)
        ensures
            s == Sides::zero_spec(),
    {
        Sides { inline_start: 0, inline_end: 0, block_start: 0, block_end: 0 }
    }
}

/// Inflating by the zero inset record leaves a rectangle unchanged.
pub proof fn lemma_inflate_zero(r: Rect)
    ensures
        inflate_spec(r, Sides::zero_spec()) == r,
{
}

} // verus!
