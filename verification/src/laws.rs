//! Laws of the inline unit sequence.
//!
//! The central invariant: a produced unit sequence never holds two
//! consecutive spaces, never a space adjacent to a line break on either
//! side, and never begins with a space.  It is preserved by the
//! tokenizer, by forced line breaks, and by the whole tree walk.  A
//! nonempty run without any whitespace contributes exactly one text
//! unit and no space.

use vstd::prelude::*;
use crate::dom::{Node, Tag, tag_spec};
use crate::inline::{
    InlineContent, InlineUnit, maybe_space_appended, newline_appended, space_unit, text_unit,
    trailing_space_removed,
};
use crate::measure::{FontMetrics, MeasureText};
use crate::style::GContext;
use crate::layout::{
    child_context_spec, process_children_spec, process_node_spec, tokenize_spec, word_units,
};
use crate::text::{is_ascii_ws, lemma_words_of_single, words_of};

verus! {

/// Whether the pair `(a, b)` of neighboring units is allowed: never two
/// spaces, never a space next to a line break on either side.
pub open spec fn adjacency_ok(a: InlineUnit, b: InlineUnit) -> bool {
    &&& !(a.content is Space && b.content is Space)
    &&& !(a.content is Space && b.content is Linebreak)
    &&& !(a.content is Linebreak && b.content is Space)
}

/// The inline-sequence invariant: every neighboring pair is allowed and
/// the sequence never begins with a space.
pub open spec fn inline_seq_wf(l: Seq<InlineUnit>) -> bool {
    &&& forall|i: int| 0 <= i && i + 1 < l.len() ==> adjacency_ok(#[trigger] l[i], l[i + 1])
    &&& l.len() > 0 ==> !(l[0].content is Space)
}

/// Removing the last unit preserves the invariant.
proof fn lemma_wf_drop_last(l: Seq<InlineUnit>)
    requires
        inline_seq_wf(l),
        l.len() > 0,
    ensures
        inline_seq_wf(l.drop_last()),
{
    assert forall|i: int| 0 <= i && i + 1 < l.drop_last().len() implies adjacency_ok(
        #[trigger] l.drop_last()[i],
        l.drop_last()[i + 1],
    ) by {
        assert(l.drop_last()[i] == l[i]);
        assert(l.drop_last()[i + 1] == l[i + 1]);
    }
}

/// After removing a trailing space from a well-formed sequence, the
/// sequence is still well formed and no longer ends in a space.
proof fn lemma_trailing_space_removed_wf(l: Seq<InlineUnit>)
    requires
        inline_seq_wf(l),
    ensures
        inline_seq_wf(trailing_space_removed(l)),
        trailing_space_removed(l).len() > 0 ==> !(trailing_space_removed(l).last().content
            is Space),
{
    let r = trailing_space_removed(l);
    if l.len() > 0 && l.last().content is Space {
        lemma_wf_drop_last(l);
        if r.len() > 0 && r.last().content is Space {
            // two trailing spaces in `l`: contradiction with adjacency
            assert(l[l.len() - 2].content is Space && l[l.len() - 1].content is Space);
            assert(adjacency_ok(l[l.len() - 2], l[l.len() - 1]));
        }
    }
}

/// Appending the units of a word list to a well-formed sequence keeps
/// it well formed; the result ends in a space exactly when a word was
/// appended (or the sequence already ended so and no word was).
proof fn lemma_append_word_units_wf<M: MeasureText>(
    l: Seq<InlineUnit>,
    words: Seq<Seq<u8>>,
    gc: GContext,
    fm: FontMetrics,
    m: M,
)
    requires
        inline_seq_wf(l),
    ensures
        inline_seq_wf(l + word_units(words, gc, fm, m)),
        words.len() > 0 ==> (l + word_units(words, gc, fm, m)).len() > 0 && (l + word_units(
            words,
            gc,
            fm,
            m,
        )).last().content is Space,
        words.len() == 0 ==> l + word_units(words, gc, fm, m) == l,
    decreases words.len(),
{
    if words.len() == 0 {
        assert(l + word_units(words, gc, fm, m) =~= l);
    } else {
        let t = text_unit(words[0], m.word_width_spec(words[0], gc), fm, gc);
        let s = space_unit(fm, gc);
        let l2 = l + seq![t, s];
        assert forall|i: int| 0 <= i && i + 1 < l2.len() implies adjacency_ok(
            #[trigger] l2[i],
            l2[i + 1],
        ) by {
            if i + 1 < l.len() {
                assert(l2[i] == l[i]);
                assert(l2[i + 1] == l[i + 1]);
            } else if i + 1 == l.len() {
                assert(l2[i + 1] == t);
            } else {
                assert(l2[i] == t);
                assert(l2[i + 1] == s);
            }
        }
        assert(inline_seq_wf(l2));
        lemma_append_word_units_wf(l2, words.drop_first(), gc, fm, m);
        assert(l + word_units(words, gc, fm, m) =~= l2 + word_units(words.drop_first(), gc, fm, m));
    }
}

/// Appending a conditional leading space keeps the invariant, since a
/// space is only appended after a word.
proof fn lemma_maybe_space_appended_wf(l: Seq<InlineUnit>, fm: FontMetrics, gc: GContext)
    requires
        inline_seq_wf(l),
    ensures
        inline_seq_wf(maybe_space_appended(l, fm, gc)),
{
    let r = maybe_space_appended(l, fm, gc);
    if r.len() > l.len() {
        assert forall|i: int| 0 <= i && i + 1 < r.len() implies adjacency_ok(
            #[trigger] r[i],
            r[i + 1],
        ) by {
            if i + 1 < l.len() {
                assert(r[i] == l[i]);
                assert(r[i + 1] == l[i + 1]);
            } else {
                assert(r[i] == l.last());
                assert(r[i + 1] == space_unit(fm, gc));
            }
        }
    }
}

/// The tokenizer preserves the inline-sequence invariant: for every
/// text run, the produced sequence holds no two consecutive spaces, no
/// space adjacent to a line break, and does not begin with a space.
pub proof fn lemma_tokenize_wf<M: MeasureText>(
    prior: Seq<InlineUnit>,
    s: Seq<u8>,
    gc: GContext,
    m: M,
)
    requires
        inline_seq_wf(prior),
    ensures
        inline_seq_wf(tokenize_spec(prior, s, gc, m)),
{
    let fm = m.font_metrics_spec(gc);
    let with_lead = if s.len() > 0 && is_ascii_ws(s[0]) {
        maybe_space_appended(prior, fm, gc)
    } else {
        prior
    };
    lemma_maybe_space_appended_wf(prior, fm, gc);
    lemma_append_word_units_wf(with_lead, words_of(s), gc, fm, m);
    let with_words = with_lead + word_units(words_of(s), gc, fm, m);
    lemma_trailing_space_removed_wf(with_words);
}

/// A forced line break preserves the inline-sequence invariant: the
/// pending trailing space is removed before the break is appended, so
/// no space ever stands before a break.
pub proof fn lemma_newline_wf(l: Seq<InlineUnit>, fm: FontMetrics, gc: GContext)
    requires
        inline_seq_wf(l),
    ensures
        inline_seq_wf(newline_appended(l, fm, gc)),
{
    lemma_trailing_space_removed_wf(l);
    let r = trailing_space_removed(l);
    let n = r.push(crate::inline::linebreak_unit(fm, gc));
    assert forall|i: int| 0 <= i && i + 1 < n.len() implies adjacency_ok(
        #[trigger] n[i],
        n[i + 1],
    ) by {
        if i + 1 < r.len() {
            assert(n[i] == r[i]);
            assert(n[i + 1] == r[i + 1]);
        } else {
            assert(n[i] == r.last());
        }
    }
}

/// The whole tree walk preserves the inline-sequence invariant.
pub proof fn lemma_process_node_wf<M: MeasureText>(
    prior: Seq<InlineUnit>,
    node: Node,
    gc: GContext,
    m: M,
)
    requires
        inline_seq_wf(prior),
    ensures
        inline_seq_wf(process_node_spec(prior, node, gc, m)),
    decreases node,
{
    match node {
        Node::Text(t) => {
            lemma_tokenize_wf(prior, t@, gc, m);
        },
        Node::Container(children) => {
            lemma_process_children_wf(prior, children, 0, gc, m);
        },
        Node::Element(e) => {
            let after = if tag_spec(e.name@) is Br {
                newline_appended(prior, m.font_metrics_spec(gc), gc)
            } else {
                prior
            };
            if tag_spec(e.name@) is Br {
                lemma_newline_wf(prior, m.font_metrics_spec(gc), gc);
            }
            lemma_process_children_wf(after, e.children, 0, child_context_spec(e, gc), m);
        },
    }
}

/// Walking a child list preserves the inline-sequence invariant.
pub proof fn lemma_process_children_wf<M: MeasureText>(
    prior: Seq<InlineUnit>,
    children: Vec<Node>,
    i: int,
    gc: GContext,
    m: M,
)
    requires
        inline_seq_wf(prior),
    ensures
        inline_seq_wf(process_children_spec(prior, children, i, gc, m)),
    decreases children, children@.len() - i,
{
    if 0 <= i < children@.len() {
        lemma_process_node_wf(prior, children@[i], gc, m);
        lemma_process_children_wf(
            process_node_spec(prior, children@[i], gc, m),
            children,
            i + 1,
            gc,
            m,
        );
    }
}

/// A text run that does not end in whitespace leaves no trailing
/// space: the per-word separator space is always retracted then.
pub proof fn lemma_tokenize_no_trailing_space<M: MeasureText>(
    prior: Seq<InlineUnit>,
    s: Seq<u8>,
    gc: GContext,
    m: M,
)
    requires
        inline_seq_wf(prior),
        s.len() == 0 || !is_ascii_ws(s[s.len() - 1]),
    ensures
        tokenize_spec(prior, s, gc, m).len() > 0 ==> !(tokenize_spec(
            prior,
            s,
            gc,
            m,
        ).last().content is Space),
{
    let fm = m.font_metrics_spec(gc);
    let with_lead = if s.len() > 0 && is_ascii_ws(s[0]) {
        maybe_space_appended(prior, fm, gc)
    } else {
        prior
    };
    lemma_maybe_space_appended_wf(prior, fm, gc);
    lemma_append_word_units_wf(with_lead, words_of(s), gc, fm, m);
    let with_words = with_lead + word_units(words_of(s), gc, fm, m);
    lemma_trailing_space_removed_wf(with_words);
}

/// A nonempty text run with no whitespace at all tokenizes to exactly
/// one text unit carrying the whole run, and no space: the separator
/// space the per-word loop appends is retracted.
pub proof fn lemma_tokenize_single_word<M: MeasureText>(
    prior: Seq<InlineUnit>,
    s: Seq<u8>,
    gc: GContext,
    m: M,
)
    requires
        s.len() > 0,
        forall|t: int| 0 <= t < s.len() ==> !is_ascii_ws(s[t]),
    ensures
        tokenize_spec(prior, s, gc, m) == prior.push(
            text_unit(s, m.word_width_spec(s, gc), m.font_metrics_spec(gc), gc),
        ),
{
    let fm = m.font_metrics_spec(gc);
    let t = text_unit(s, m.word_width_spec(s, gc), fm, gc);
    let sp = space_unit(fm, gc);
    lemma_words_of_single(s);
    assert(words_of(s) == seq![s]);
    assert(seq![s].drop_first() =~= Seq::<Seq<u8>>::empty());
    assert(word_units(Seq::<Seq<u8>>::empty(), gc, fm, m) == Seq::<InlineUnit>::empty());
    assert(word_units(seq![s], gc, fm, m) =~= seq![t, sp]);
    let with_words = prior + seq![t, sp];
    assert(with_words.last() == sp);
    assert(tokenize_spec(prior, s, gc, m) == with_words.drop_last());
    assert(with_words.drop_last() =~= prior.push(t));
}

} // verus!
