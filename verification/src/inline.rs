//! Inline units: the atoms of the linear inline-flow sequence, and the
//! small append/retract operations the box builder edits it with.

use vstd::prelude::*;
use crate::geometry::Length;
use crate::measure::FontMetrics;
use crate::style::GContext;

verus! {

/// The payload of one inline unit: a collapsible space, a forced line
/// break, or an immutable word of text.
#[derive(Clone, Debug, PartialEq, Eq)]
pub enum InlineBoxContent {
    Space,
    Linebreak,
    Text(Vec<u8>),
}

/// One inline unit.  It carries its measured width, the line spacing of
/// the context active when it was created, and the captured paint
/// context.  Units are built once per render call and never mutated.
#[derive(Clone, Debug, PartialEq, Eq)]
pub struct InlineBox {
    pub content: InlineBoxContent,
    pub width: Length,
    pub linespacing: Length,
    pub gc: GContext,
}

/// The mathematical payload of an inline unit.
pub enum InlineContent {
    Space,
    Linebreak,
    Text(Seq<u8>),
}

/// The mathematical view of an inline unit.
pub struct InlineUnit {
    pub content: InlineContent,
    pub width: Length,
    pub linespacing: Length,
    pub gc: GContext,
}

impl View for InlineBox {
    type V = InlineUnit;

    open spec fn view(&self) -> InlineUnit {
        InlineUnit {
            content: match self.content {
                InlineBoxContent::Space => InlineContent::Space,
                InlineBoxContent::Linebreak => InlineContent::Linebreak,
                InlineBoxContent::Text(w) => InlineContent::Text(w@),
            },
            width: self.width,
            linespacing: self.linespacing,
            gc: self.gc,
        }
    }
}

/// The view of a whole unit list.
pub open spec fn units_of(boxes: Seq<InlineBox>) -> Seq<InlineUnit> {
    boxes.map_values(|b: InlineBox| b@)
}

/// A space unit under the metrics and context it was created with.
pub open spec fn space_unit(fm: FontMetrics, gc: GContext) -> InlineUnit {
    InlineUnit {
        content: InlineContent::Space,
        width: fm.space_width,
        linespacing: fm.linespacing,
        gc,
    }
}

/// A zero-width forced line break carrying the current line spacing.
pub open spec fn linebreak_unit(fm: FontMetrics, gc: GContext) -> InlineUnit {
    InlineUnit { content: InlineContent::Linebreak, width: 0, linespacing: fm.linespacing, gc }
}

/// A word unit with its measured width.
pub open spec fn text_unit(word: Seq<u8>, width: Length, fm: FontMetrics, gc: GContext) -> InlineUnit {
    InlineUnit { content: InlineContent::Text(word), width, linespacing: fm.linespacing, gc }
}

/// `l` with one space appended, unless `l` is empty or already ends in
/// a space or a line break: a line, a paragraph or a post-break
/// position is never opened with a space.
pub open spec fn maybe_space_appended(l: Seq<InlineUnit>, fm: FontMetrics, gc: GContext) -> Seq<
    InlineUnit,
> {
    if l.len() > 0 && !(l.last().content is Space) && !(l.last().content is Linebreak) {
        l.push(space_unit(fm, gc))
    } else {
        l
    }
}

/// `l` with a trailing space removed, if its last unit is one.
pub open spec fn trailing_space_removed(l: Seq<InlineUnit>) -> Seq<InlineUnit> {
    if l.len() > 0 && l.last().content is Space {
        l.drop_last()
    } else {
        l
    }
}

/// `l` after a forced line break: a pending trailing space is removed
/// (a space before a break must not render as a gap), then a zero-width
/// break carrying the current line spacing is appended.
pub open spec fn newline_appended(l: Seq<InlineUnit>, fm: FontMetrics, gc: GContext) -> Seq<
    InlineUnit,
> {
    trailing_space_removed(l).push(linebreak_unit(fm, gc))
}

/// Unconditionally append a space unit.
pub fn add_space(boxes: &mut Vec<InlineBox>, fm: &FontMetrics, gc: &GContext)
    ensures
        units_of(final(boxes)@) == units_of(old(boxes)@).push(space_unit(*fm, *gc)),
{
    let b = InlineBox {
        content: InlineBoxContent::Space,
        width: fm.space_width,
        linespacing: fm.linespacing,
        gc: *gc,
    };
    boxes.push(b);
    proof {
        assert(units_of(boxes@) =~= units_of(old(boxes)@).push(space_unit(*fm, *gc)));
    }
}

/// Append a space unit only if the list does not already end in a space
/// or a line break; never append to an empty list.
pub fn maybe_add_space(boxes: &mut Vec<InlineBox>, fm: &FontMetrics, gc: &GContext)
    ensures
        units_of(final(boxes)@) == maybe_space_appended(units_of(old(boxes)@), *fm, *gc),
{
    if boxes.len() > 0 {
        let last_is_blank = match &boxes[boxes.len() - 1].content {
            InlineBoxContent::Space => true,
            InlineBoxContent::Linebreak => true,
            InlineBoxContent::Text(_) => false,
        };
        proof {
            assert(units_of(boxes@).last() == boxes@.last()@);
        }
        if !last_is_blank {
            add_space(boxes, fm, gc);
        }
    }
}

/// Remove the last unit if it is a space.
pub fn maybe_remove_space(boxes: &mut Vec<InlineBox>)
    ensures
        units_of(final(boxes)@) == trailing_space_removed(units_of(old(boxes)@)),
{
    if boxes.len() > 0 {
        let is_space = match &boxes[boxes.len() - 1].content {
            InlineBoxContent::Space => true,
            _ => false,
        };
        proof {
            assert(units_of(boxes@).last() == boxes@.last()@);
        }
        if is_space {
            boxes.pop();
            proof {
                assert(units_of(boxes@) =~= units_of(old(boxes)@).drop_last());
            }
        }
    }
}

} // verus!
