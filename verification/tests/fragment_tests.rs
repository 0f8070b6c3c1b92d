use std::sync::Arc;

use mdlayout::fragments::{
    AnonymousFragment, BoxFragment, CollapsedBlockMargins, CollapsedMargin,
};
use mdlayout::geometry::{Rect, Sides, Vec2};
use mdlayout::style::{Color, ComputedValues, Direction, Fontface, WritingMode};

fn rect(ix: i64, bx: i64, iw: i64, bw: i64) -> Rect {
    Rect {
        start_corner: Vec2 { inline: ix, block: bx },
        size: Vec2 { inline: iw, block: bw },
    }
}

fn uniform(v: i64) -> Sides {
    Sides { inline_start: v, inline_end: v, block_start: v, block_end: v }
}

fn style() -> Arc<ComputedValues> {
    Arc::new(ComputedValues { color: Color::black(), fontface: Fontface::Normal })
}

fn box_fragment(content_rect: Rect, padding: Sides, border: Sides) -> BoxFragment {
    BoxFragment {
        style: style(),
        children: Vec::new(),
        content_rect,
        padding,
        border,
        margin: uniform(0),
        block_margins_collapsed_with_children: CollapsedBlockMargins::zero(),
    }
}

#[test]
fn solve_mixed_signs() {
    let m = CollapsedMargin::new(10).adjoin(&CollapsedMargin::new(-4));
    assert_eq!(m.solve(), 6);
}

#[test]
fn solve_two_positives() {
    let m = CollapsedMargin::new(5).adjoin(&CollapsedMargin::new(8));
    assert_eq!(m.solve(), 8);
}

#[test]
fn solve_two_negatives() {
    let m = CollapsedMargin::new(-3).adjoin(&CollapsedMargin::new(-7));
    assert_eq!(m.solve(), -7);
}

#[test]
fn adjoin_is_commutative() {
    let a = CollapsedMargin::new(10);
    let b = CollapsedMargin::new(-4);
    assert_eq!(a.adjoin(&b), b.adjoin(&a));
}

#[test]
fn adjoin_is_associative() {
    let a = CollapsedMargin::new(3);
    let b = CollapsedMargin::new(-9);
    let c = CollapsedMargin::new(7);
    assert_eq!(a.adjoin(&b).adjoin(&c), a.adjoin(&b.adjoin(&c)));
}

#[test]
fn adjoin_zero_is_identity() {
    let m = CollapsedMargin::new(10).adjoin(&CollapsedMargin::new(-4));
    assert_eq!(m.adjoin(&CollapsedMargin::new(0)), m);
    assert_eq!(m.adjoin(&CollapsedMargin::zero()), m);
}

#[test]
fn adjoin_assign_matches_adjoin() {
    let mut a = CollapsedMargin::new(-2);
    let b = CollapsedMargin::new(11);
    let joined = a.adjoin(&b);
    a.adjoin_assign(&b);
    assert_eq!(a, joined);
    assert_eq!(a.solve(), 9);
}

#[test]
fn new_splits_sign() {
    assert_eq!(CollapsedMargin::new(12).solve(), 12);
    assert_eq!(CollapsedMargin::new(-5).solve(), -5);
    assert_eq!(CollapsedMargin::new(0), CollapsedMargin::zero());
}

#[test]
fn block_margins_from_margin() {
    let sides = Sides { inline_start: 1, inline_end: 2, block_start: 10, block_end: -4 };
    let m = CollapsedBlockMargins::from_margin(&sides);
    assert!(!m.collapsed_through);
    assert_eq!(m.start.solve(), 10);
    assert_eq!(m.end.solve(), -4);
}

#[test]
fn block_margins_zero() {
    let m = CollapsedBlockMargins::zero();
    assert!(!m.collapsed_through);
    assert_eq!(m.start.solve(), 0);
    assert_eq!(m.end.solve(), 0);
}

#[test]
fn border_rect_zero_insets_is_content_rect() {
    let content = rect(7, 9, 40, 30);
    let b = box_fragment(content, uniform(0), uniform(0));
    assert_eq!(b.border_rect(), content);
}

#[test]
fn border_rect_grows_by_padding_then_border() {
    let content = rect(100, 200, 40, 30);
    let b = box_fragment(content, uniform(3), uniform(2));
    let r = b.border_rect();
    assert_eq!(r.size.inline, 40 + 2 * (3 + 2));
    assert_eq!(r.size.block, 30 + 2 * (3 + 2));
    assert_eq!(r.start_corner.inline, 100 - 5);
    assert_eq!(r.start_corner.block, 200 - 5);
}

#[test]
fn border_rect_asymmetric_insets() {
    let content = rect(0, 0, 10, 10);
    let padding = Sides { inline_start: 1, inline_end: 2, block_start: 3, block_end: 4 };
    let border = Sides { inline_start: 5, inline_end: 6, block_start: 7, block_end: 8 };
    let b = box_fragment(content, padding, border);
    let r = b.border_rect();
    assert_eq!(r.start_corner.inline, -6);
    assert_eq!(r.start_corner.block, -10);
    assert_eq!(r.size.inline, 10 + 1 + 2 + 5 + 6);
    assert_eq!(r.size.block, 10 + 3 + 4 + 7 + 8);
}

#[test]
fn no_op_fragment_is_empty() {
    let mode = (WritingMode::HorizontalTb, Direction::Ltr);
    let a = AnonymousFragment::no_op(mode);
    assert!(a.children.is_empty());
    assert_eq!(a.rect, rect(0, 0, 0, 0));
    assert_eq!(a.mode, mode);
}

#[test]
fn inflate_moves_corner_and_grows_size() {
    let r = rect(10, 20, 5, 6).inflate(&uniform(2));
    assert_eq!(r, rect(8, 18, 9, 10));
}
