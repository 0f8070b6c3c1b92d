//! The measurement capability the inline box builder queries: per-context
//! font metrics and per-word widths.
//!
//! Measurement is deliberately separated from drawing: every inline unit
//! carries its own pre-measured width and line spacing, so the device is
//! queried exactly once per unit and never re-entered during rendering.

use vstd::prelude::*;
use crate::geometry::Length;
use crate::style::GContext;
use crate::text::vec_u8_eq;

verus! {

/// Font measurements of one paint context: the width of a single space
/// and the vertical advance of one line.
#[derive(Clone, Copy, Debug, PartialEq, Eq, Structural)]
pub struct FontMetrics {
    pub space_width: Length,
    pub linespacing: Length,
}

/// The measurement capability surface.  Both queries are pure: the
/// result is a function of the arguments alone, named by the two spec
/// functions, and the implementor owns no layout logic.
pub trait MeasureText {
    /// The font metrics this measurer reports for `gc`.
    spec fn font_metrics_spec(&self, gc: GContext) -> FontMetrics;

    /// The width this measurer reports for `word` under `gc`.
    spec fn word_width_spec(&self, word: Seq<u8>, gc: GContext) -> Length;

    /// Query the font metrics of a paint context.
    fn font_metrics(&self, gc: &GContext) -> (fm: FontMetrics)
        ensures
            fm == self.font_metrics_spec(*gc),
    ;

    /// Measure the width of one word under a paint context.
    fn string_metrics(&self, word: &Vec<u8>, gc: &GContext) -> (w: Length)
        ensures
            w == self.word_width_spec(word@, *gc),
    ;
}

/// One table entry: a word and its measured width.
#[derive(Clone, Debug, PartialEq, Eq)]
pub struct WordWidth {
    pub word: Vec<u8>,
    pub width: Length,
}

/// The width of `word` in `entries`: the width of the first entry whose
/// word matches, or `default_width` when none does.
pub open spec fn lookup_width(entries: Seq<WordWidth>, word: Seq<u8>, default_width: Length) -> Length
    decreases entries.len(),
{
    if entries.len() == 0 {
        default_width
    } else if entries[0].word@ == word {
        entries[0].width
    } else {
        lookup_width(entries.drop_first(), word, default_width)
    }
}

/// A table-driven measurer: fixed space width and line spacing for every
/// context, and word widths looked up in a table with a default.
#[derive(Clone, Debug)]
pub struct TableMeasurer {
    pub space_width: Length,
    pub linespacing: Length,
    pub default_width: Length,
    pub entries: Vec<WordWidth>,
}

/// A match-free prefix of the table does not change the lookup result.
proof fn lemma_lookup_skip(entries: Seq<WordWidth>, word: Seq<u8>, default_width: Length, i: int)
    requires
        0 <= i <= entries.len(),
        forall|j: int| 0 <= j < i ==> entries[j].word@ != word,
    ensures
        lookup_width(entries, word, default_width) == lookup_width(
            entries.skip(i),
            word,
            default_width,
        ),
    decreases i,
{
    if i == 0 {
        assert(entries.skip(0) =~= entries);
    } else {
        lemma_lookup_skip(entries, word, default_width, i - 1);
        let rest = entries.skip(i - 1);
        assert(rest[0] == entries[i - 1]);
        assert(rest.drop_first() =~= entries.skip(i));
    }
}

impl MeasureText for TableMeasurer {
    open spec fn font_metrics_spec(&self, gc: GContext) -> FontMetrics {
        FontMetrics { space_width: self.space_width, linespacing: self.linespacing }
    }

    open spec fn word_width_spec(&self, word: Seq<u8>, gc: GContext) -> Length {
        lookup_width(self.entries@, word, self.default_width)
    }

    fn font_metrics(&self, gc: &GContext) -> (fm: FontMetrics) {
        FontMetrics { space_width: self.space_width, linespacing: self.linespacing }
    }

    fn string_metrics(&self, word: &Vec<u8>, gc: &GContext) -> (w: Length) {
        let mut i: usize = 0;
        while i < self.entries.len()
            invariant
                0 <= i <= self.entries@.len(),
                forall|j: int| 0 <= j < i ==> self.entries@[j].word@ != word@,
            decreases self.entries@.len() - i,
        {
            if vec_u8_eq(&self.entries[i].word, word) {
                proof {
                    lemma_lookup_skip(self.entries@, word@, self.default_width, i as int);
                    assert(self.entries@.skip(i as int)[0] == self.entries@[i as int]);
                }
                return self.entries[i].width;
            }
            i += 1;
        }
        proof {
            lemma_lookup_skip(self.entries@, word@, self.default_width, i as int);
            assert(self.entries@.skip(i as int).len() == 0);
        }
        self.default_width
    }
}

} // verus!
