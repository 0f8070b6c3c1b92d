//! The inline box builder: tag-driven style forking, whitespace
//! tokenization and forced line breaks, producing the flat inline unit
//! sequence in document order.

use vstd::prelude::*;
use crate::dom::{ElementData, Node, Tag, element_tag, tag_spec};
use crate::inline::{
    InlineBox, InlineBoxContent, InlineUnit, linebreak_unit, maybe_add_space, maybe_remove_space,
    maybe_space_appended, newline_appended, space_unit, text_unit, trailing_space_removed, add_space,
    units_of,
};
use crate::measure::{FontMetrics, MeasureText};
use crate::style::{Color, CssDeclaration, Fontface, GContext};
use crate::text::{byte_is_ascii_ws, is_ascii_ws, lemma_words_acc_close, lemma_words_acc_no_ws,
    lemma_words_acc_ws, words_acc, words_of};

verus! {

/// The units contributed by a list of words: for each word, in order, a
/// text unit with its measured width followed by one space unit.
pub open spec fn word_units<M: MeasureText>(
    words: Seq<Seq<u8>>,
    gc: GContext,
    fm: FontMetrics,
    m: M,
) -> Seq<InlineUnit>
    decreases words.len(),
{
    if words.len() == 0 {
        Seq::empty()
    } else {
        seq![
            text_unit(words[0], m.word_width_spec(words[0], gc), fm, gc),
            space_unit(fm, gc),
        ] + word_units(words.drop_first(), gc, fm, m)
    }
}

/// Closing one more word appends its text unit and separator space.
pub proof fn lemma_word_units_push<M: MeasureText>(
    words: Seq<Seq<u8>>,
    w: Seq<u8>,
    gc: GContext,
    fm: FontMetrics,
    m: M,
)
    ensures
        word_units(words.push(w), gc, fm, m) == word_units(words, gc, fm, m) + seq![
            text_unit(w, m.word_width_spec(w, gc), fm, gc),
            space_unit(fm, gc),
        ],
    decreases words.len(),
{
    if words.len() == 0 {
        assert(words.push(w)[0] == w);
        assert(words.push(w).drop_first() =~= Seq::<Seq<u8>>::empty());
        assert(word_units(Seq::<Seq<u8>>::empty(), gc, fm, m) == Seq::<InlineUnit>::empty());
        assert(word_units(words.push(w), gc, fm, m) =~= word_units(words, gc, fm, m) + seq![
            text_unit(w, m.word_width_spec(w, gc), fm, gc),
            space_unit(fm, gc),
        ]);
    } else {
        assert(words.push(w)[0] == words[0]);
        assert(words.push(w).drop_first() =~= words.drop_first().push(w));
        lemma_word_units_push(words.drop_first(), w, gc, fm, m);
        assert(word_units(words.push(w), gc, fm, m) =~= word_units(words, gc, fm, m) + seq![
            text_unit(w, m.word_width_spec(w, gc), fm, gc),
            space_unit(fm, gc),
        ]);
    }
}

/// The whole effect of tokenizing the text run `s` into a unit list
/// that currently holds `prior`: a conditional leading space, the words
/// of `s` each followed by a separator space, and, when `s` does not
/// end in whitespace, the retraction of a final trailing space.
pub open spec fn tokenize_spec<M: MeasureText>(
    prior: Seq<InlineUnit>,
    s: Seq<u8>,
    gc: GContext,
    m: M,
) -> Seq<InlineUnit> {
    let fm = m.font_metrics_spec(gc);
    let with_lead = if s.len() > 0 && is_ascii_ws(s[0]) {
        maybe_space_appended(prior, fm, gc)
    } else {
        prior
    };
    let with_words = with_lead + word_units(words_of(s), gc, fm, m);
    if s.len() == 0 || !is_ascii_ws(s[s.len() - 1]) {
        trailing_space_removed(with_words)
    } else {
        with_words
    }
}

/// Tokenize the text run `text` under the context `gc`, appending the
/// produced units to `boxes`.  The context's font metrics are queried
/// once and reused for every unit of this run; each word's width is
/// measured individually.
pub fn make_text_boxes<M: MeasureText>(
    boxes: &mut Vec<InlineBox>,
    text: &Vec<u8>,
    gc: &GContext,
    m: &M,
)
    ensures
        units_of(final(boxes)@) == tokenize_spec(units_of(old(boxes)@), text@, *gc, *m),
{
    let fm = m.font_metrics(gc);

    // add a starting whitespace unit if none exists yet
    if text.len() > 0 && byte_is_ascii_ws(text[0]) {
        maybe_add_space(boxes, &fm, gc);
    }
    let ghost with_lead = units_of(boxes@);

    let mut i: usize = 0;
    let ghost mut words_done: Seq<Seq<u8>> = Seq::empty();
    proof {
        assert(text@.skip(0) =~= text@);
        assert(words_done + words_acc(text@.skip(0), Seq::empty()) =~= words_of(text@));
        assert(with_lead + word_units(words_done, *gc, fm, *m) =~= with_lead);
    }
    while i < text.len()
        invariant
            0 <= i <= text@.len(),
            fm == m.font_metrics_spec(*gc),
            units_of(boxes@) == with_lead + word_units(words_done, *gc, fm, *m),
            words_of(text@) == words_done + words_acc(text@.skip(i as int), Seq::empty()),
        decreases text@.len() - i,
    {
        if byte_is_ascii_ws(text[i]) {
            proof {
                lemma_words_acc_ws(text@, i as int);
            }
            i += 1;
        } else {
            let start = i;
            let mut word: Vec<u8> = Vec::new();
            loop
                invariant
                    start <= i <= text@.len(),
                    word@ == text@.subrange(start as int, i as int),
                    forall|t: int| start <= t < i ==> !is_ascii_ws(text@[t]),
                ensures
                    start <= i <= text@.len(),
                    word@ == text@.subrange(start as int, i as int),
                    forall|t: int| start <= t < i ==> !is_ascii_ws(text@[t]),
                    i == text@.len() || is_ascii_ws(text@[i as int]),
                decreases text@.len() - i,
            {
                if i == text.len() {
                    break;
                }
                if byte_is_ascii_ws(text[i]) {
                    break;
                }
                word.push(text[i]);
                proof {
                    assert(word@ =~= text@.subrange(start as int, i as int + 1));
                }
                i += 1;
            }
            let ghost w = text@.subrange(start as int, i as int);
            proof {
                // the scan moved: the first byte of the word is not whitespace
                assert(i > start);
                lemma_words_acc_no_ws(text@, start as int, i as int, Seq::empty());
                assert(Seq::<u8>::empty() + w =~= w);
                lemma_words_acc_close(text@, i as int, w);
                assert((words_done + seq![w]) + words_acc(text@.skip(i as int), Seq::empty())
                    =~= words_of(text@));
            }
            // push word, then space
            let ghost before_word = units_of(boxes@);
            let width = m.string_metrics(&word, gc);
            let b = InlineBox {
                content: InlineBoxContent::Text(word),
                width,
                linespacing: fm.linespacing,
                gc: *gc,
            };
            boxes.push(b);
            proof {
                assert(units_of(boxes@) =~= before_word.push(
                    text_unit(w, m.word_width_spec(w, *gc), fm, *gc),
                ));
            }
            add_space(boxes, &fm, gc);
            proof {
                lemma_word_units_push(words_done, w, *gc, fm, *m);
                words_done = words_done.push(w);
                assert(units_of(boxes@) =~= with_lead + word_units(words_done, *gc, fm, *m));
            }
        }
    }
    proof {
        assert(words_acc(text@.skip(text@.len() as int), Seq::<u8>::empty()) == Seq::<Seq<u8>>::empty());
        assert(words_done =~= words_of(text@));
    }

    // remove final space if the run doesn't end with whitespace
    if text.len() == 0 || !byte_is_ascii_ws(text[text.len() - 1]) {
        maybe_remove_space(boxes);
    }
}

/// Append a forced line break under the context `gc`: a pending
/// trailing space is retracted first, then a zero-width break carrying
/// the context's line spacing is appended.
pub fn add_newline<M: MeasureText>(boxes: &mut Vec<InlineBox>, gc: &GContext, m: &M)
    ensures
        units_of(final(boxes)@) == newline_appended(
            units_of(old(boxes)@),
            m.font_metrics_spec(*gc),
            *gc,
        ),
{
    let fm = m.font_metrics(gc);

    maybe_remove_space(boxes);

    let b = InlineBox {
        content: InlineBoxContent::Linebreak,
        width: 0,
        linespacing: fm.linespacing,
        gc: *gc,
    };
    boxes.push(b);
    proof {
        assert(units_of(boxes@) =~= trailing_space_removed(units_of(old(boxes)@)).push(
            linebreak_unit(fm, *gc),
        ));
    }
}

/// The last color set by a declaration list, if any.
pub open spec fn last_color(decls: Seq<CssDeclaration>) -> Option<Color>
    decreases decls.len(),
{
    if decls.len() == 0 {
        None
    } else {
        match decls.last() {
            CssDeclaration::Color(c) => Some(c),
            CssDeclaration::Other => last_color(decls.drop_last()),
        }
    }
}

/// The context produced by an element's parsed style declarations:
/// `Some` of a fork with the last declared color exactly when the list
/// declares a color; `None` — no fork, the original context is reused —
/// when it declares none.
pub open spec fn styled_spec(decls: Seq<CssDeclaration>, gc: GContext) -> Option<GContext> {
    match last_color(decls) {
        Some(c) => Some(GContext { color: c, ..gc }),
        None => None,
    }
}

/// Apply an element's parsed `style` declarations to `gc`: fork and set
/// the color when a color declaration is present, otherwise no fork.
pub fn apply_style_attribute(elt: &ElementData, gc: &GContext) -> (r: Option<GContext>)
    ensures
        r == styled_spec(elt.style@, *gc),
{
    let mut found: Option<Color> = None;
    let mut i: usize = 0;
    while i < elt.style.len()
        invariant
            0 <= i <= elt.style@.len(),
            found == last_color(elt.style@.take(i as int)),
        decreases elt.style@.len() - i,
    {
        match elt.style[i] {
            CssDeclaration::Color(c) => {
                found = Some(c);
            },
            CssDeclaration::Other => {},
        }
        proof {
            let done = elt.style@.take(i as int + 1);
            assert(done.drop_last() =~= elt.style@.take(i as int));
            assert(done.last() == elt.style@[i as int]);
        }
        i += 1;
    }
    proof {
        assert(elt.style@.take(elt.style@.len() as int) =~= elt.style@);
    }
    match found {
        Some(c) => {
            let mut gc_new = *gc;
            gc_new.set_color(&c);
            Some(gc_new)
        },
        None => None,
    }
}

/// The context an element hands its children.  The tag's own transform
/// comes first: `em` and `strong` fork and set the font face, every
/// other tag is the identity (`br`'s line break is a side effect, not a
/// context change).  Then, for every element, a style color, if
/// declared, forks once more on top.
pub open spec fn child_context_spec(e: ElementData, gc: GContext) -> GContext {
    let transformed = match tag_spec(e.name@) {
        Tag::Em => GContext { fontface: Fontface::Italics, ..gc },
        Tag::Strong => GContext { fontface: Fontface::Bold, ..gc },
        Tag::Span => gc,
        Tag::Br => gc,
        Tag::OtherTag => gc,
    };
    match styled_spec(e.style@, transformed) {
        Some(g) => g,
        None => transformed,
    }
}

/// The units produced by walking `node` depth-first under `gc`, starting
/// from the unit list `prior`: text runs are tokenized, `br` emits a
/// forced break, and children are visited under the element's child
/// context.  The dispatch never prunes the tree.
pub open spec fn process_node_spec<M: MeasureText>(
    prior: Seq<InlineUnit>,
    node: Node,
    gc: GContext,
    m: M,
) -> Seq<InlineUnit>
    decreases node,
{
    match node {
        Node::Text(t) => tokenize_spec(prior, t@, gc, m),
        Node::Container(children) => process_children_spec(prior, children, 0, gc, m),
        Node::Element(e) => {
            let after = if tag_spec(e.name@) is Br {
                newline_appended(prior, m.font_metrics_spec(gc), gc)
            } else {
                prior
            };
            process_children_spec(after, e.children, 0, child_context_spec(e, gc), m)
        },
    }
}

/// The units produced by walking the children from index `i` on, in
/// order, each from the state the previous one left behind.
pub open spec fn process_children_spec<M: MeasureText>(
    prior: Seq<InlineUnit>,
    children: Vec<Node>,
    i: int,
    gc: GContext,
    m: M,
) -> Seq<InlineUnit>
    decreases children, children@.len() - i,
{
    if i < 0 || i >= children@.len() {
        prior
    } else {
        process_children_spec(
            process_node_spec(prior, children@[i], gc, m),
            children,
            i + 1,
            gc,
            m,
        )
    }
}

/// Walk `node` depth-first under `gc`, appending the produced inline
/// units to `boxes` in document order.
pub fn process_node<M: MeasureText>(boxes: &mut Vec<InlineBox>, node: &Node, gc: &GContext, m: &M)
    ensures
        units_of(final(boxes)@) == process_node_spec(units_of(old(boxes)@), *node, *gc, *m),
    decreases node,
{
    match node {
        Node::Text(text) => {
            make_text_boxes(boxes, text, gc, m);
        },
        Node::Container(children) => {
            process_children(boxes, children, gc, m);
        },
        Node::Element(e) => {
            let tag = element_tag(&e.name);
            let mut gc_final: GContext = *gc;
            match tag {
                Tag::Em => {
                    let mut gc_new = *gc;
                    gc_new.modify_fontface(Fontface::Italics);
                    gc_final = gc_new;
                    if let Some(g) = apply_style_attribute(e, &gc_new) {
                        gc_final = g;
                    }
                },
                Tag::Span => {
                    if let Some(g) = apply_style_attribute(e, gc) {
                        gc_final = g;
                    }
                },
                Tag::Strong => {
                    let mut gc_new = *gc;
                    gc_new.modify_fontface(Fontface::Bold);
                    gc_final = gc_new;
                    if let Some(g) = apply_style_attribute(e, &gc_new) {
                        gc_final = g;
                    }
                },
                Tag::Br => {
                    add_newline(boxes, gc, m);
                    if let Some(g) = apply_style_attribute(e, gc) {
                        gc_final = g;
                    }
                },
                Tag::OtherTag => {
                    if let Some(g) = apply_style_attribute(e, gc) {
                        gc_final = g;
                    }
                },
            }
            proof {
                assert(gc_final == child_context_spec(*e, *gc));
            }
            process_children(boxes, &e.children, &gc_final, m);
        },
    }
}

/// Walk every child in order, threading the unit list through.
fn process_children<M: MeasureText>(
    boxes: &mut Vec<InlineBox>,
    children: &Vec<Node>,
    gc: &GContext,
    m: &M,
)
    ensures
        units_of(final(boxes)@) == process_children_spec(
            units_of(old(boxes)@),
            *children,
            0,
            *gc,
            *m,
        ),
    decreases children,
{
    let mut j: usize = 0;
    while j < children.len()
        invariant
            0 <= j <= children@.len(),
            process_children_spec(units_of(old(boxes)@), *children, 0, *gc, *m)
                == process_children_spec(units_of(boxes@), *children, j as int, *gc, *m),
        decreases children@.len() - j,
    {
        process_node(boxes, &children[j], gc, m);
        j += 1;
    }
}

/// Build the whole inline unit sequence of a content tree, from an
/// empty unit list and the initial paint context.
pub fn layout_document<M: MeasureText>(root: &Node, m: &M) -> (boxes: Vec<InlineBox>)
    ensures
        units_of(boxes@) == process_node_spec(
            Seq::empty(),
            *root,
            GContext::initial_spec(),
            *m,
        ),
        crate::laws::inline_seq_wf(units_of(boxes@)),
{
    let mut boxes: Vec<InlineBox> = Vec::new();
    let gc = GContext::new();
    proof {
        assert(units_of(boxes@) =~= Seq::<InlineUnit>::empty());
        crate::laws::lemma_process_node_wf(Seq::<InlineUnit>::empty(), *root, gc, *m);
    }
    process_node(&mut boxes, root, &gc, m);
    boxes
}

} // verus!
