//! The content tree the inline box builder walks.
//!
//! Markup parsing is out of scope: a caller parses its input elsewhere
//! and hands the builder this tree of plain values.  An element carries
//! its tag name as bytes and the parsed declarations of its inline
//! `style` attribute; an absent or unparsable attribute is an empty
//! declaration list.

use vstd::prelude::*;
use crate::style::CssDeclaration;

verus! {

/// One node of the content tree.
#[derive(Debug)]
pub enum Node {
    /// An element with a tag name, parsed style declarations and
    /// children.
    Element(ElementData),
    /// A text run.
    Text(Vec<u8>),
    /// Any other node kind with children (a document, a fragment root):
    /// it contributes nothing itself, but its children are still
    /// visited.
    Container(Vec<Node>),
}

/// The data of an element node.
#[derive(Debug)]
pub struct ElementData {
    pub name: Vec<u8>,
    pub style: Vec<CssDeclaration>,
    pub children: Vec<Node>,
}

/// Whether `name` is the `em` tag.
pub open spec fn is_em_tag(name: Seq<u8>) -> bool {
    name == seq![101u8, 109u8]
}

/// Whether `name` is the `span` tag.
pub open spec fn is_span_tag(name: Seq<u8>) -> bool {
    name == seq![115u8, 112u8, 97u8, 110u8]
}

/// Whether `name` is the `strong` tag.
pub open spec fn is_strong_tag(name: Seq<u8>) -> bool {
    name == seq![115u8, 116u8, 114u8, 111u8, 110u8, 103u8]
}

/// Whether `name` is the `br` tag.
pub open spec fn is_br_tag(name: Seq<u8>) -> bool {
    name == seq![98u8, 114u8]
}

/// The closed tag classification the builder dispatches on.
#[derive(Clone, Copy, Debug, PartialEq, Eq, Structural)]
pub enum Tag {
    Em,
    Span,
    Strong,
    Br,
    OtherTag,
}

/// The classification of a tag name.
pub open spec fn tag_spec(name: Seq<u8>) -> Tag {
    if is_em_tag(name) {
        Tag::Em
    } else if is_span_tag(name) {
        Tag::Span
    } else if is_strong_tag(name) {
        Tag::Strong
    } else if is_br_tag(name) {
        Tag::Br
    } else {
        Tag::OtherTag
    }
}

/// Classify a tag name.
pub fn element_tag(name: &Vec<u8>) -> (t: Tag)
    ensures
        t == tag_spec(name@),
{
    if name.len() == 2 && name[0] == 101u8 && name[1] == 109u8 {
        proof {
            assert(name@ =~= seq![101u8, 109u8]);
        }
        Tag::Em
    } else if name.len() == 4 && name[0] == 115u8 && name[1] == 112u8 && name[2] == 97u8 && name[3]
        == 110u8 {
        proof {
            assert(name@ =~= seq![115u8, 112u8, 97u8, 110u8]);
        }
        Tag::Span
    } else if name.len() == 6 && name[0] == 115u8 && name[1] == 116u8 && name[2] == 114u8 && name[3]
        == 111u8 && name[4] == 110u8 && name[5] == 103u8 {
        proof {
            assert(name@ =~= seq![115u8, 116u8, 114u8, 111u8, 110u8, 103u8]);
        }
        Tag::Strong
    } else if name.len() == 2 && name[0] == 98u8 && name[1] == 114u8 {
        proof {
            assert(name@ =~= seq![98u8, 114u8]);
        }
        Tag::Br
    } else {
        Tag::OtherTag
    }
}

} // verus!
