//! The fragment tree produced by a block layout pass, and the
//! adjoining-margin collapse arithmetic it is built with.

use vstd::prelude::*;
use std::sync::Arc;
use crate::geometry::{Length, Rect, Sides, sides_fit, inflate_spec};
use crate::style::{ComputedValues, WritingMode, Direction};

verus! {

/// A positioned, measured node of the post-layout geometry tree.
#[derive(Debug)]
pub enum Fragment {
    Box(BoxFragment),
    Anonymous(AnonymousFragment),
    Text(TextFragment),
}

/// A fragment with full box-model insets and children.
#[derive(Debug)]
pub struct BoxFragment {
    pub style: Arc<ComputedValues>,
    pub children: Vec<Fragment>,
    pub content_rect: Rect,
    pub padding: Sides,
    pub border: Sides,
    pub margin: Sides,
    pub block_margins_collapsed_with_children: CollapsedBlockMargins,
}

/// A structural, non-painting grouping fragment: it holds children with
/// relative coordinates but contributes no paint of its own.
#[derive(Debug)]
pub struct AnonymousFragment {
    pub rect: Rect,
    pub children: Vec<Fragment>,
    pub mode: (WritingMode, Direction),
}

/// A run of shaped text with its style and content rectangle.  The
/// shaped segment itself is produced elsewhere and only referenced.
#[derive(Debug)]
pub struct TextFragment {
    pub parent_style: Arc<ComputedValues>,
    pub content_rect: Rect,
    pub text: ShapedSegment,
}

/// An externally shaped text segment.  Shaping is out of scope here; the
/// kernel carries the segment through without reading it.
#[derive(Clone, Debug, PartialEq, Eq)]
pub struct ShapedSegment {
    pub text: Vec<u8>,
    pub advance_width: Length,
}

/// A box's collapsed block-start and block-end margins, and whether the
/// box collapses through: a collapsed-through box contributes no
/// separating height of its own, so its margins pass to its neighbors
/// as though the box were not present.
#[derive(Clone, Copy, Debug, PartialEq, Eq, Structural)]
pub struct CollapsedBlockMargins {
    pub collapsed_through: bool,
    pub start: CollapsedMargin,
    pub end: CollapsedMargin,
}

/// The envelope of all margin contributions adjoined so far along one
/// box edge: the largest positive contribution and the smallest
/// negative one.
#[derive(Clone, Copy, Debug, PartialEq, Eq, Structural)]
pub struct CollapsedMargin {
    max_positive: Length,
    min_negative: Length,
}

impl AnonymousFragment {
    /// An anonymous fragment with no children and zero geometry.
    pub fn no_op(mode: (WritingMode, Direction)) -> (r: Self)
        ensures
            r.children@ == Seq::<Fragment>::empty(),
            r.rect == Rect::zero_spec(),
            r.mode == mode,
    {
        let children: Vec<Fragment> = Vec::new();
        Self { children, rect: Rect::zero(), mode }
    }
}

impl BoxFragment {
    /// The border rectangle: the content rectangle expanded outward
    /// first by the padding, then by the border.  The margin lies
    /// outside the border edge and is never included.
    pub open spec fn border_rect_spec(self) -> Rect {
        inflate_spec(inflate_spec(self.content_rect, self.padding), self.border)
    }

    pub fn border_rect(&self) -> (r: Rect)
        requires
            sides_fit(self.content_rect, self.padding),
            sides_fit(inflate_spec(self.content_rect, self.padding), self.border),
        ensures
            r == self.border_rect_spec(),
    {
        self.content_rect.inflate(&self.padding).inflate(&self.border)
    }
}

/// With zero padding and zero border, the border rectangle of a box is
/// exactly its content rectangle.
pub proof fn lemma_border_rect_zero_insets(b: BoxFragment)
    requires
        b.padding == Sides::zero_spec(),
        b.border == Sides::zero_spec(),
    ensures
        b.border_rect_spec() == b.content_rect,
{
    crate::geometry::lemma_inflate_zero(b.content_rect);
    crate::geometry::lemma_inflate_zero(inflate_spec(b.content_rect, b.padding));
}

/// The border rectangle grows each axis of the content size by the sum
/// of the two padding insets and the two border insets of that axis,
/// and moves the start corner back by the start insets.
pub proof fn lemma_border_rect_size(b: BoxFragment)
    requires
        sides_fit(b.content_rect, b.padding),
        sides_fit(inflate_spec(b.content_rect, b.padding), b.border),
    ensures
        b.border_rect_spec().size.inline as int == b.content_rect.size.inline
            + b.padding.inline_start + b.padding.inline_end
            + b.border.inline_start + b.border.inline_end,
        b.border_rect_spec().size.block as int == b.content_rect.size.block
            + b.padding.block_start + b.padding.block_end
            + b.border.block_start + b.border.block_end,
        b.border_rect_spec().start_corner.inline as int == b.content_rect.start_corner.inline
            - b.padding.inline_start - b.border.inline_start,
        b.border_rect_spec().start_corner.block as int == b.content_rect.start_corner.block
            - b.padding.block_start - b.border.block_start,
{
}

/// With nonnegative padding and border insets, the border rectangle is
/// strictly larger than the content rectangle on each axis whose
/// insets do not all vanish.
pub proof fn lemma_border_rect_strict_growth(b: BoxFragment)
    requires
        sides_fit(b.content_rect, b.padding),
        sides_fit(inflate_spec(b.content_rect, b.padding), b.border),
        b.padding.inline_start >= 0,
        b.padding.inline_end >= 0,
        b.padding.block_start >= 0,
        b.padding.block_end >= 0,
        b.border.inline_start >= 0,
        b.border.inline_end >= 0,
        b.border.block_start >= 0,
        b.border.block_end >= 0,
    ensures
        b.padding.inline_start + b.padding.inline_end + b.border.inline_start
            + b.border.inline_end > 0 ==> b.border_rect_spec().size.inline
            > b.content_rect.size.inline,
        b.padding.block_start + b.padding.block_end + b.border.block_start
            + b.border.block_end > 0 ==> b.border_rect_spec().size.block
            > b.content_rect.size.block,
{
    lemma_border_rect_size(b);
}

impl CollapsedBlockMargins {
    /// Collapsed block margins seeded from a margin inset record: not
    /// collapsed through, with the block-start and block-end margin
    /// lengths as the two collapsed edges.
    pub fn from_margin(margin: &Sides) -> (r: Self)
        ensures
            !r.collapsed_through,
            r.start == CollapsedMargin::from_spec(margin.block_start),
            r.end == CollapsedMargin::from_spec(margin.block_end),
    {
        Self {
            collapsed_through: false,
            start: CollapsedMargin::new(margin.block_start),
            end: CollapsedMargin::new(margin.block_end),
        }
    }

    /// Zero collapsed block margins, not collapsed through.
    pub fn zero() -> (r: Self)
        ensures
            !r.collapsed_through,
            r.start == CollapsedMargin::zero_spec(),
            r.end == CollapsedMargin::zero_spec(),
    {
        Self {
            collapsed_through: false,
            start: CollapsedMargin::zero(),
            end: CollapsedMargin::zero(),
        }
    }
}

impl CollapsedMargin {
    /// The envelope invariant: the positive component is never negative
    /// and the negative component never positive.
    #[verifier::type_invariant]
    spec fn inv(self) -> bool {
        self.wf()
    }

    /// The envelope invariant, as a public validity predicate.  Every
    /// value of the type satisfies it; a caller obtains it with
    /// `use_type_invariant`.
    pub open spec fn wf(self) -> bool {
        0 <= self.max_pos() && self.min_neg() <= 0
    }

    /// The largest positive margin contribution adjoined so far.
    pub closed spec fn max_pos(self) -> int {
        self.max_positive as int
    }

    /// The smallest negative margin contribution adjoined so far.
    pub closed spec fn min_neg(self) -> int {
        self.min_negative as int
    }

    /// The envelope of no contributions at all.
    pub closed spec fn zero_spec() -> Self {
        CollapsedMargin { max_positive: 0, min_negative: 0 }
    }

    /// The envelope of the single margin length `margin`: exactly one
    /// component is nonzero.
    pub closed spec fn from_spec(margin: Length) -> Self {
        CollapsedMargin {
            max_positive: if margin >= 0 { margin } else { 0 },
            min_negative: if margin <= 0 { margin } else { 0 },
        }
    }

    /// The envelope of the contributions of both arguments.
    pub closed spec fn adjoin_spec(self, other: Self) -> Self {
        CollapsedMargin {
            max_positive: if self.max_positive >= other.max_positive {
                self.max_positive
            } else {
                other.max_positive
            },
            min_negative: if self.min_negative <= other.min_negative {
                self.min_negative
            } else {
                other.min_negative
            },
        }
    }

    pub fn zero() -> (r: Self)
        ensures
            r == CollapsedMargin::zero_spec(),
            r.max_pos() == 0,
            r.min_neg() == 0,
    {
        Self { max_positive: 0, min_negative: 0 }
    }

    /// The collapsed margin of the single margin length `margin`.
    pub fn new(margin: Length) -> (r: Self)
        ensures
            r == CollapsedMargin::from_spec(margin),
            r.max_pos() == (if margin >= 0 { margin as int } else { 0 }),
            r.min_neg() == (if margin <= 0 { margin as int } else { 0 }),
    {
        Self {
            max_positive: if margin >= 0 { margin } else { 0 },
            min_negative: if margin <= 0 { margin } else { 0 },
        }
    }

    /// Combine with a margin that touches this one with no separating
    /// content: componentwise max of the positive envelopes and min of
    /// the negative ones — never a sum or an average.
    pub fn adjoin(&self, other: &Self) -> (r: Self)
        ensures
            r == self.adjoin_spec(*other),
            r.max_pos() == (if self.max_pos() >= other.max_pos() {
                self.max_pos()
            } else {
                other.max_pos()
            }),
            r.min_neg() == (if self.min_neg() <= other.min_neg() {
                self.min_neg()
            } else {
                other.min_neg()
            }),
    {
        proof {
            use_type_invariant(self);
            use_type_invariant(other);
        }
        Self {
            max_positive: if self.max_positive >= other.max_positive {
                self.max_positive
            } else {
                other.max_positive
            },
            min_negative: if self.min_negative <= other.min_negative {
                self.min_negative
            } else {
                other.min_negative
            },
        }
    }

    /// Replace this margin with the adjoined combination of itself and
    /// `other`.
    pub fn adjoin_assign(&mut self, other: &Self)
        ensures
            *final(self) == old(self).adjoin_spec(*other),
    {
        *self = self.adjoin(other);
    }

    /// The single used margin value of the envelope: the sum of the
    /// positive and the negative component.
    pub fn solve(&self) -> (r: Length)
        ensures
            r as int == self.max_pos() + self.min_neg(),
    {
        proof {
            use_type_invariant(self);
        }
        self.max_positive + self.min_negative
    }
}

/// Adjoining margins is commutative.
pub proof fn lemma_adjoin_commutative(a: CollapsedMargin, b: CollapsedMargin)
    ensures
        a.adjoin_spec(b) == b.adjoin_spec(a),
{
}

/// Adjoining margins is associative.
pub proof fn lemma_adjoin_associative(a: CollapsedMargin, b: CollapsedMargin, c: CollapsedMargin)
    ensures
        a.adjoin_spec(b).adjoin_spec(c) == a.adjoin_spec(b.adjoin_spec(c)),
{
}

/// Adjoining the collapsed margin of a zero length changes nothing: the
/// operation is idempotent at the zero contribution.
pub proof fn lemma_adjoin_zero(m: CollapsedMargin)
    requires
        m.wf(),
    ensures
        m.adjoin_spec(CollapsedMargin::from_spec(0)) == m,
        m.adjoin_spec(CollapsedMargin::zero_spec()) == m,
{
}

} // verus!
