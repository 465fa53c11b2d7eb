//! Draw commands: what a frame consists of, for a renderer to carry out.

use crate::geometry::Position;
use vstd::prelude::*;

verus! {

/// Result text shown over a team's side of the display.
#[derive(Clone, Copy, Debug, PartialEq, Eq, Structural)]
pub enum Label {
    Win,
    Lose,
}

/// Horizontal alignment of a label against its anchor.
#[derive(Clone, Copy, Debug, PartialEq, Eq, Structural)]
pub enum TextAlign {
    Left,
    Right,
}

/// One primitive to draw. Points are in display coordinates.
#[derive(Clone, Copy, Debug, PartialEq, Eq, Structural)]
pub enum DrawCommand {
    /// Blank the whole display.
    Clear,
    /// A filled rectangle with the given top-left corner and size.
    FilledRect { top_left: Position, width: u32, height: u32 },
    /// A filled triangle with three corners.
    FilledTriangle { a: Position, b: Position, c: Position },
    /// A one-pixel line between two points.
    Line { from: Position, to: Position },
    /// A label anchored at a point with its top edge on the anchor.
    Text { label: Label, anchor: Position, align: TextAlign },
}

} // verus!
