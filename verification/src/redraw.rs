//! What has to be painted again after a dispatch.

use vstd::prelude::*;
use crate::text::Point;

verus! {

/// The least repaint that shows the effect of a dispatch.
#[derive(Clone, Copy, Debug, PartialEq, Eq)]
pub enum RedrawTask {
    /// Nothing has to be painted.
    Null,
    /// Everything has to be painted.
    Full,
    /// Only the message line has to be painted.
    StatusBar,
    /// Only the rows between the cursor's place before and after; each
    /// place is a column and a row.
    Cursor((usize, usize), (usize, usize)),
}

/// The repaint asked for, as the contracts see it.
pub enum Redraw {
    /// Nothing.
    Null,
    /// Everything.
    Full,
    /// The message line.
    StatusBar,
    /// The rows between two places of the cursor.
    Cursor(Point, Point),
}

impl View for RedrawTask {
    type V = Redraw;

    open spec fn view(&self) -> Redraw {
        match *self {
            RedrawTask::Null => Redraw::Null,
            RedrawTask::Full => Redraw::Full,
            RedrawTask::StatusBar => Redraw::StatusBar,
            RedrawTask::Cursor(a, b) => Redraw::Cursor((a.0 as int, a.1 as int), (b.0 as int, b.1 as int)),
        }
    }
}

} // verus!
