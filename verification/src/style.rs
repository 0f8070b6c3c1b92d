//! Paint contexts, style declarations and the shared computed-style data
//! referenced by fragments.

use vstd::prelude::*;

verus! {

/// An RGB paint color.
#[derive(Clone, Copy, Debug, PartialEq, Eq, Structural)]
pub struct Color {
    pub r: u8,
    pub g: u8,
    pub b: u8,
}

impl Color {
    /// The default text color.
    pub open spec fn black_spec() -> Color {
        Color { r: 0, g: 0, b: 0 }
    }

    pub fn black() -> (c: Color)
        ensures
            c == Color::black_spec(),
    {
        Color { r: 0, g: 0, b: 0 }
    }
}

/// A font face variant.
#[derive(Clone, Copy, Debug, PartialEq, Eq, Structural)]
pub enum Fontface {
    Normal,
    Italics,
    Bold,
}

/// An inherited, forkable paint context: the cascaded paint state a node
/// draws with.  A fork produces a new, independently owned value; a
/// context is never changed once another owner may observe it.
#[derive(Clone, Copy, Debug, PartialEq, Eq, Structural)]
pub struct GContext {
    pub color: Color,
    pub fontface: Fontface,
}

impl GContext {
    /// The initial paint context: black text, normal face.
    pub open spec fn initial_spec() -> GContext {
        GContext { color: Color::black_spec(), fontface: Fontface::Normal }
    }

    pub fn new() -> (gc: GContext)
        ensures
            gc == GContext::initial_spec(),
    {
        GContext { color: Color::black(), fontface: Fontface::Normal }
    }

    /// Set the paint color, leaving the font face unchanged.
    pub fn set_color(&mut self, color: &Color)
        ensures
            *final(self) == (GContext { color: *color, ..*old(self) }),
    {
        self.color = *color;
    }

    /// Set the font face variant, leaving the color unchanged.
    pub fn modify_fontface(&mut self, fontface: Fontface)
        ensures
            *final(self) == (GContext { fontface, ..*old(self) }),
    {
        self.fontface = fontface;
    }
}

/// One parsed declaration of an inline `style` attribute.  The kernel
/// only acts on `color` declarations; every other declaration is carried
/// as `Other` and ignored.
#[derive(Clone, Copy, Debug, PartialEq, Eq, Structural)]
pub enum CssDeclaration {
    Color(Color),
    Other,
}

/// The writing mode tag carried by anonymous fragments.
#[derive(Clone, Copy, Debug, PartialEq, Eq, Structural)]
pub enum WritingMode {
    HorizontalTb,
    VerticalRl,
    VerticalLr,
}

/// The inline direction tag carried by anonymous fragments.
#[derive(Clone, Copy, Debug, PartialEq, Eq, Structural)]
pub enum Direction {
    Ltr,
    Rtl,
}

/// Computed style values referenced by fragments through a shared,
/// immutable handle.  A changed style is a new value, never a mutation.
#[derive(Clone, Copy, Debug, PartialEq, Eq, Structural)]
pub struct ComputedValues {
    pub color: Color,
    pub fontface: Fontface,
}

} // verus!
