//! The inline flow rendering pass: a single left-to-right,
//! top-to-bottom scan over the inline unit sequence that converts
//! widths and line spacings into cursor positions and produces the
//! ordered sequence of draw calls.
//!
//! No wrapping by available width happens here: the pass lays out
//! exactly one unbounded line per explicit break.

use vstd::prelude::*;
use crate::geometry::{Length, fits_length};
use crate::inline::{InlineBox, InlineBoxContent, InlineContent, InlineUnit, units_of};
use crate::style::GContext;

verus! {

/// One draw call: paint `text` at device position `(x, y)` under the
/// captured paint context.  The order of the calls is significant and
/// equals inline-unit order.
#[derive(Clone, Debug, PartialEq, Eq)]
pub struct DrawCommand {
    pub text: Vec<u8>,
    pub x: Length,
    pub y: Length,
    pub gc: GContext,
}

/// The mathematical view of a draw call, with unbounded coordinates.
pub struct DrawCall {
    pub text: Seq<u8>,
    pub x: int,
    pub y: int,
    pub gc: GContext,
}

impl View for DrawCommand {
    type V = DrawCall;

    open spec fn view(&self) -> DrawCall {
        DrawCall { text: self.text@, x: self.x as int, y: self.y as int, gc: self.gc }
    }
}

/// The view of a whole draw-command list.
pub open spec fn calls_of(cmds: Seq<DrawCommand>) -> Seq<DrawCall> {
    cmds.map_values(|c: DrawCommand| c@)
}

/// The draw calls of the units, scanned from cursor `(x, y)` with the
/// device-space origin `(ox, oy)`: a space advances the cursor by its
/// width, a line break resets the inline cursor to zero and advances
/// the block cursor by its line spacing, and a word is drawn at origin
/// plus cursor and then advances the cursor by its width.
pub open spec fn flow_calls(units: Seq<InlineUnit>, ox: int, oy: int, x: int, y: int) -> Seq<
    DrawCall,
>
    decreases units.len(),
{
    if units.len() == 0 {
        Seq::empty()
    } else {
        let u = units[0];
        match u.content {
            InlineContent::Space => flow_calls(units.drop_first(), ox, oy, x + u.width, y),
            InlineContent::Linebreak => flow_calls(units.drop_first(), ox, oy, 0, y + u.linespacing),
            InlineContent::Text(t) => seq![
                DrawCall { text: t, x: ox + x, y: oy + y, gc: u.gc },
            ] + flow_calls(units.drop_first(), ox, oy, x + u.width, y),
        }
    }
}

/// Whether every cursor position and draw position reached by the scan
/// stays within `Length` range — the machine-limit condition under
/// which the pass can run.
pub open spec fn flow_fits(units: Seq<InlineUnit>, ox: int, oy: int, x: int, y: int) -> bool
    decreases units.len(),
{
    if units.len() == 0 {
        true
    } else {
        let u = units[0];
        match u.content {
            InlineContent::Space => fits_length(x + u.width) && flow_fits(
                units.drop_first(),
                ox,
                oy,
                x + u.width,
                y,
            ),
            InlineContent::Linebreak => fits_length(y + u.linespacing) && flow_fits(
                units.drop_first(),
                ox,
                oy,
                0,
                y + u.linespacing,
            ),
            InlineContent::Text(t) => fits_length(ox + x) && fits_length(oy + y) && fits_length(
                x + u.width,
            ) && flow_fits(units.drop_first(), ox, oy, x + u.width, y),
        }
    }
}

/// Render the inline unit sequence from the device-space origin
/// `(x0, y0)`, producing the draw calls in unit order.
pub fn render_inline_boxes(boxes: &Vec<InlineBox>, x0: Length, y0: Length) -> (cmds: Vec<
    DrawCommand,
>)
    requires
        flow_fits(units_of(boxes@), x0 as int, y0 as int, 0, 0),
    ensures
        calls_of(cmds@) == flow_calls(units_of(boxes@), x0 as int, y0 as int, 0, 0),
{
    let ghost units = units_of(boxes@);
    let mut cmds: Vec<DrawCommand> = Vec::new();
    let mut x: Length = 0;
    let mut y: Length = 0;
    let mut i: usize = 0;
    proof {
        assert(units.skip(0) =~= units);
        assert(calls_of(cmds@) =~= Seq::<DrawCall>::empty());
    }
    while i < boxes.len()
        invariant
            0 <= i <= boxes@.len(),
            units == units_of(boxes@),
            flow_fits(units.skip(i as int), x0 as int, y0 as int, x as int, y as int),
            flow_calls(units, x0 as int, y0 as int, 0, 0) == calls_of(cmds@) + flow_calls(
                units.skip(i as int),
                x0 as int,
                y0 as int,
                x as int,
                y as int,
            ),
        decreases boxes@.len() - i,
    {
        proof {
            assert(units.skip(i as int)[0] == units[i as int]);
            assert(units[i as int] == boxes@[i as int]@);
            assert(units.skip(i as int).drop_first() =~= units.skip(i as int + 1));
        }
        let b = &boxes[i];
        match &b.content {
            InlineBoxContent::Space => {
                x = x + b.width;
            },
            InlineBoxContent::Linebreak => {
                x = 0;
                y = y + b.linespacing;
            },
            InlineBoxContent::Text(word) => {
                let ghost before = calls_of(cmds@);
                let cmd = DrawCommand { text: word.clone(), x: x0 + x, y: y0 + y, gc: b.gc };
                cmds.push(cmd);
                proof {
                    assert(calls_of(cmds@) =~= before.push(cmd@));
                    assert(before + seq![cmd@] + flow_calls(
                        units.skip(i as int + 1),
                        x0 as int,
                        y0 as int,
                        x + b.width,
                        y as int,
                    ) =~= before.push(cmd@) + flow_calls(
                        units.skip(i as int + 1),
                        x0 as int,
                        y0 as int,
                        x + b.width,
                        y as int,
                    ));
                }
                x = x + b.width;
            },
        }
        i += 1;
    }
    proof {
        assert(units.skip(boxes@.len() as int).len() == 0);
        assert(calls_of(cmds@) + flow_calls(
            units.skip(boxes@.len() as int),
            x0 as int,
            y0 as int,
            x as int,
            y as int,
        ) =~= calls_of(cmds@));
    }
    cmds
}

} // verus!
