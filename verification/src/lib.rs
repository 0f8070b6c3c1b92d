//! Layout kernel for a tree of marked-up content.
//!
//! Given a content tree (elements, text nodes) and an inherited paint
//! context, the inline path produces a flat sequence of inline units
//! (words, collapsible spaces, forced line breaks) and turns it into an
//! ordered sequence of positioned draw commands.  Independently, the
//! fragment path offers the box-model geometry types of a block layout
//! pass: fragments with content/padding/border/margin rectangles and
//! CSS-style adjoining-margin collapse arithmetic.

pub mod geometry;
pub mod style;
pub mod fragments;
pub mod text;
pub mod measure;
pub mod inline;
pub mod dom;
pub mod layout;
pub mod render;
pub mod laws;
