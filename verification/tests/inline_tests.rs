use mdlayout::dom::{ElementData, Node, Tag, element_tag};
use mdlayout::inline::{InlineBox, InlineBoxContent};
use mdlayout::layout::{add_newline, apply_style_attribute, layout_document, make_text_boxes};
use mdlayout::measure::{MeasureText, TableMeasurer, WordWidth};
use mdlayout::render::render_inline_boxes;
use mdlayout::style::{Color, CssDeclaration, Fontface, GContext};

fn measurer() -> TableMeasurer {
    TableMeasurer {
        space_width: 4,
        linespacing: 16,
        default_width: 99,
        entries: vec![
            WordWidth { word: b"hello".to_vec(), width: 20 },
            WordWidth { word: b"world".to_vec(), width: 25 },
        ],
    }
}

fn tokenize(prior: Vec<InlineBox>, text: &[u8]) -> Vec<InlineBox> {
    let mut boxes = prior;
    let m = measurer();
    let gc = GContext::new();
    make_text_boxes(&mut boxes, &text.to_vec(), &gc, &m);
    boxes
}

fn word_of(b: &InlineBox) -> Vec<u8> {
    match &b.content {
        InlineBoxContent::Text(w) => w.clone(),
        _ => panic!("expected a text unit"),
    }
}

fn is_space(b: &InlineBox) -> bool {
    matches!(b.content, InlineBoxContent::Space)
}

fn is_linebreak(b: &InlineBox) -> bool {
    matches!(b.content, InlineBoxContent::Linebreak)
}

#[test]
fn tokenize_boundary_whitespace_run() {
    let boxes = tokenize(Vec::new(), b"  hello   world  ");
    assert_eq!(boxes.len(), 4);
    assert_eq!(word_of(&boxes[0]), b"hello".to_vec());
    assert_eq!(boxes[0].width, 20);
    assert!(is_space(&boxes[1]));
    assert_eq!(boxes[1].width, 4);
    assert_eq!(word_of(&boxes[2]), b"world".to_vec());
    assert_eq!(boxes[2].width, 25);
    assert!(is_space(&boxes[3]));
}

#[test]
fn tokenize_keeps_leading_space_after_word() {
    let prior = tokenize(Vec::new(), b"hello");
    let boxes = tokenize(prior, b"  world");
    assert_eq!(boxes.len(), 3);
    assert_eq!(word_of(&boxes[0]), b"hello".to_vec());
    assert!(is_space(&boxes[1]));
    assert_eq!(word_of(&boxes[2]), b"world".to_vec());
}

#[test]
fn tokenize_retracts_trailing_space() {
    let boxes = tokenize(Vec::new(), b"hello world");
    assert_eq!(boxes.len(), 3);
    assert_eq!(word_of(&boxes[0]), b"hello".to_vec());
    assert!(is_space(&boxes[1]));
    assert_eq!(word_of(&boxes[2]), b"world".to_vec());
}

#[test]
fn tokenize_single_word_no_spaces() {
    let boxes = tokenize(Vec::new(), b"hello");
    assert_eq!(boxes.len(), 1);
    assert_eq!(word_of(&boxes[0]), b"hello".to_vec());
    assert_eq!(boxes[0].width, 20);
    assert_eq!(boxes[0].linespacing, 16);
}

#[test]
fn tokenize_all_whitespace_runs() {
    // into an empty list: nothing at all
    let boxes = tokenize(Vec::new(), b"   ");
    assert!(boxes.is_empty());
    // after a word: exactly one space
    let prior = tokenize(Vec::new(), b"hello");
    let boxes = tokenize(prior, b" \t ");
    assert_eq!(boxes.len(), 2);
    assert!(is_space(&boxes[1]));
    // after that space: still only one space
    let boxes = tokenize(boxes, b"  ");
    assert_eq!(boxes.len(), 2);
}

#[test]
fn tokenize_empty_run_retracts_pending_space() {
    let prior = tokenize(Vec::new(), b"hello ");
    assert_eq!(prior.len(), 2);
    let boxes = tokenize(prior, b"");
    assert_eq!(boxes.len(), 1);
    assert_eq!(word_of(&boxes[0]), b"hello".to_vec());
}

#[test]
fn newline_retracts_pending_space() {
    let mut boxes = tokenize(Vec::new(), b"hello ");
    assert_eq!(boxes.len(), 2);
    let m = measurer();
    let gc = GContext::new();
    add_newline(&mut boxes, &gc, &m);
    assert_eq!(boxes.len(), 2);
    assert_eq!(word_of(&boxes[0]), b"hello".to_vec());
    assert!(is_linebreak(&boxes[1]));
    assert_eq!(boxes[1].width, 0);
    assert_eq!(boxes[1].linespacing, 16);
}

#[test]
fn unit_sequence_has_no_adjacent_spaces() {
    let mut boxes = tokenize(Vec::new(), b"  hello  ");
    boxes = tokenize(boxes, b"   ");
    let m = measurer();
    let gc = GContext::new();
    add_newline(&mut boxes, &gc, &m);
    boxes = tokenize(boxes, b"  world  ");
    boxes = tokenize(boxes, b" hello");
    assert!(!boxes.is_empty());
    assert!(!is_space(&boxes[0]));
    for pair in boxes.windows(2) {
        assert!(!(is_space(&pair[0]) && is_space(&pair[1])));
        assert!(!(is_space(&pair[0]) && is_linebreak(&pair[1])));
        assert!(!(is_linebreak(&pair[0]) && is_space(&pair[1])));
    }
}

fn element(name: &[u8], style: Vec<CssDeclaration>, children: Vec<Node>) -> Node {
    Node::Element(ElementData { name: name.to_vec(), style, children })
}

#[test]
fn styled_tree_forks_contexts() {
    let tree = Node::Container(vec![
        element(b"strong", Vec::new(), vec![Node::Text(b"Hi".to_vec())]),
        element(b"br", Vec::new(), Vec::new()),
        element(b"em", Vec::new(), vec![Node::Text(b"there".to_vec())]),
    ]);
    let boxes = layout_document(&tree, &measurer());
    assert_eq!(boxes.len(), 3);
    assert_eq!(word_of(&boxes[0]), b"Hi".to_vec());
    assert_eq!(boxes[0].gc.fontface, Fontface::Bold);
    assert!(is_linebreak(&boxes[1]));
    assert_eq!(word_of(&boxes[2]), b"there".to_vec());
    assert_eq!(boxes[2].gc.fontface, Fontface::Italics);
}

#[test]
fn fork_does_not_leak_to_siblings() {
    let tree = Node::Container(vec![
        element(b"strong", Vec::new(), vec![Node::Text(b"hello".to_vec())]),
        Node::Text(b" world".to_vec()),
    ]);
    let boxes = layout_document(&tree, &measurer());
    assert_eq!(boxes.len(), 3);
    assert_eq!(boxes[0].gc.fontface, Fontface::Bold);
    assert!(is_space(&boxes[1]));
    assert_eq!(boxes[2].gc.fontface, Fontface::Normal);
}

#[test]
fn span_style_color_forks() {
    let red = Color { r: 255, g: 0, b: 0 };
    let blue = Color { r: 0, g: 0, b: 255 };
    let tree = element(
        b"span",
        vec![
            CssDeclaration::Other,
            CssDeclaration::Color(blue),
            CssDeclaration::Color(red),
        ],
        vec![Node::Text(b"hello".to_vec())],
    );
    let boxes = layout_document(&tree, &measurer());
    assert_eq!(boxes.len(), 1);
    // the last color declaration wins; the face is untouched
    assert_eq!(boxes[0].gc.color, red);
    assert_eq!(boxes[0].gc.fontface, Fontface::Normal);
}

#[test]
fn em_style_color_stacks_on_face_fork() {
    let red = Color { r: 255, g: 0, b: 0 };
    let tree = element(
        b"em",
        vec![CssDeclaration::Color(red)],
        vec![Node::Text(b"hello".to_vec())],
    );
    let boxes = layout_document(&tree, &measurer());
    assert_eq!(boxes.len(), 1);
    assert_eq!(boxes[0].gc.color, red);
    assert_eq!(boxes[0].gc.fontface, Fontface::Italics);
}

#[test]
fn style_without_color_is_noop() {
    let elt = ElementData {
        name: b"span".to_vec(),
        style: vec![CssDeclaration::Other, CssDeclaration::Other],
        children: Vec::new(),
    };
    let gc = GContext::new();
    assert_eq!(apply_style_attribute(&elt, &gc), None);
    let tree = element(
        b"span",
        vec![CssDeclaration::Other],
        vec![Node::Text(b"hello".to_vec())],
    );
    let boxes = layout_document(&tree, &measurer());
    assert_eq!(boxes[0].gc, GContext::new());
}

#[test]
fn any_tag_style_color_forks() {
    let red = Color { r: 255, g: 0, b: 0 };
    let tree = element(
        b"div",
        vec![CssDeclaration::Color(red)],
        vec![Node::Text(b"hello".to_vec())],
    );
    let boxes = layout_document(&tree, &measurer());
    assert_eq!(boxes.len(), 1);
    assert_eq!(boxes[0].gc.color, red);
    assert_eq!(boxes[0].gc.fontface, Fontface::Normal);
}

#[test]
fn br_style_color_applies_to_children() {
    let red = Color { r: 255, g: 0, b: 0 };
    let tree = element(
        b"br",
        vec![CssDeclaration::Color(red)],
        vec![Node::Text(b"hello".to_vec())],
    );
    let boxes = layout_document(&tree, &measurer());
    assert_eq!(boxes.len(), 2);
    assert!(is_linebreak(&boxes[0]));
    // the break itself carries the parent context; the children get the fork
    assert_eq!(boxes[0].gc, GContext::new());
    assert_eq!(boxes[1].gc.color, red);
}

#[test]
fn unknown_tag_inherits_context() {
    let tree = element(b"div", Vec::new(), vec![Node::Text(b"hello".to_vec())]);
    let boxes = layout_document(&tree, &measurer());
    assert_eq!(boxes.len(), 1);
    assert_eq!(word_of(&boxes[0]), b"hello".to_vec());
    assert_eq!(boxes[0].gc, GContext::new());
}

#[test]
fn tag_classification() {
    assert_eq!(element_tag(&b"em".to_vec()), Tag::Em);
    assert_eq!(element_tag(&b"span".to_vec()), Tag::Span);
    assert_eq!(element_tag(&b"strong".to_vec()), Tag::Strong);
    assert_eq!(element_tag(&b"br".to_vec()), Tag::Br);
    assert_eq!(element_tag(&b"div".to_vec()), Tag::OtherTag);
    assert_eq!(element_tag(&b"eM".to_vec()), Tag::OtherTag);
}

#[test]
fn measurer_lookup_and_default() {
    let m = measurer();
    let gc = GContext::new();
    assert_eq!(m.string_metrics(&b"hello".to_vec(), &gc), 20);
    assert_eq!(m.string_metrics(&b"world".to_vec(), &gc), 25);
    assert_eq!(m.string_metrics(&b"other".to_vec(), &gc), 99);
    let fm = m.font_metrics(&gc);
    assert_eq!(fm.space_width, 4);
    assert_eq!(fm.linespacing, 16);
}

fn text_box(word: &[u8], width: i64) -> InlineBox {
    InlineBox {
        content: InlineBoxContent::Text(word.to_vec()),
        width,
        linespacing: 160,
        gc: GContext::new(),
    }
}

fn space_box(width: i64) -> InlineBox {
    InlineBox {
        content: InlineBoxContent::Space,
        width,
        linespacing: 160,
        gc: GContext::new(),
    }
}

fn break_box(linespacing: i64) -> InlineBox {
    InlineBox {
        content: InlineBoxContent::Linebreak,
        width: 0,
        linespacing,
        gc: GContext::new(),
    }
}

#[test]
fn render_line_reset_from_offset_origin() {
    // widths and origin in tenths of a unit: a text of width 10, a
    // space of width 4, a break with line spacing 16, a text of width
    // 6, rendered from origin (0.2, 0.5)
    let boxes = vec![
        text_box(b"ab", 100),
        space_box(40),
        break_box(160),
        text_box(b"cd", 60),
    ];
    let cmds = render_inline_boxes(&boxes, 2, 5);
    assert_eq!(cmds.len(), 2);
    assert_eq!(cmds[0].text, b"ab".to_vec());
    assert_eq!(cmds[0].x, 2);
    assert_eq!(cmds[0].y, 5);
    assert_eq!(cmds[1].text, b"cd".to_vec());
    assert_eq!(cmds[1].x, 2);
    assert_eq!(cmds[1].y, 165);
}

#[test]
fn render_advances_inline_cursor() {
    let boxes = vec![text_box(b"ab", 10), space_box(4), text_box(b"cd", 6)];
    let cmds = render_inline_boxes(&boxes, 0, 0);
    assert_eq!(cmds.len(), 2);
    assert_eq!(cmds[0].x, 0);
    assert_eq!(cmds[0].y, 0);
    assert_eq!(cmds[1].x, 14);
    assert_eq!(cmds[1].y, 0);
}

#[test]
fn render_preserves_document_order() {
    let boxes = vec![
        text_box(b"a", 1),
        text_box(b"b", 2),
        break_box(8),
        text_box(b"c", 3),
    ];
    let cmds = render_inline_boxes(&boxes, 0, 0);
    let words: Vec<Vec<u8>> = cmds.iter().map(|c| c.text.clone()).collect();
    assert_eq!(words, vec![b"a".to_vec(), b"b".to_vec(), b"c".to_vec()]);
    assert_eq!(cmds[1].x, 1);
    assert_eq!(cmds[2].x, 0);
    assert_eq!(cmds[2].y, 8);
}
