//! What the widgets that paint the windows decide: which grid cell shows at a
//! screen cell, where the cursor may stand, and the text of the help panel.

use vstd::prelude::*;
use crate::geometry::{clamp, clamp_to_rect, last_x, last_y, Rect};
use crate::life::{Life, LifeCell};

verus! {

/// The number of lines of the help panel's text.
pub const HELP_LINES: usize = 12;

/// The help panel: a list of the keys and what they do.
pub struct HelpWidget {}

impl HelpWidget {
    /// Construct a new HelpWidget.
    pub fn new() -> Self {
        HelpWidget {}
    }

    /// The panel's text, one entry per line.
    pub fn lines(&self) -> (r: Vec<&'static str>)
        ensures
            r@.len() == HELP_LINES,
            r@[0]@ == "y k u"@,
            r@[1]@ == " \\|/"@,
            r@[2]@ == "h-+-l  Cursor movement"@,
            r@[3]@ == " /|\\"@,
            r@[4]@ == "b j n  (or arrow keys)"@,
            r@[5]@ == ""@,
            r@[6]@ == "t: Toggle cell"@,
            r@[7]@ == "s: Step"@,
            r@[8]@ == "r: Run start/stop"@,
            r@[9]@ == "c: Clear screen"@,
            r@[10]@ == "R: Randomize"@,
            r@[11]@ == "q: Quit"@,
    {
        let mut lines: Vec<&'static str> = Vec::new();
        lines.push("y k u");
        lines.push(" \\|/");
        lines.push("h-+-l  Cursor movement");
        lines.push(" /|\\");
        lines.push("b j n  (or arrow keys)");
        lines.push("");
        lines.push("t: Toggle cell");
        lines.push("s: Step");
        lines.push("r: Run start/stop");
        lines.push("c: Clear screen");
        lines.push("R: Randomize");
        lines.push("q: Quit");
        lines
    }
}

/// The grid cell that shows at screen cell (col, row) when the grid is
/// painted from the top-left corner of `inner`; `Dead` outside `inner`.
pub open spec fn shown_cell(life: Life, inner: Rect, col: int, row: int) -> LifeCell {
    if inner.x <= col < inner.x + inner.width && inner.y <= row < inner.y + inner.height {
        life.cell(col - inner.x, row - inner.y)
    } else {
        LifeCell::Dead
    }
}

/// The cursor of the grid widget, in screen cells.
#[derive(Debug, Clone, Copy, PartialEq, Eq, Structural)]
pub struct LifeWidgetState {
    pub cursor_x: u16,
    pub cursor_y: u16,
}

impl LifeWidgetState {
    /// Moves the cursor to the nearest cell of `inner`.
    pub fn clamp_into(&mut self, inner: Rect)
        ensures
            final(self).cursor_x == clamp(old(self).cursor_x as int, inner.x as int, last_x(inner)),
            final(self).cursor_y == clamp(old(self).cursor_y as int, inner.y as int, last_y(inner)),
    {
        let (x, y) = clamp_to_rect(self.cursor_x, self.cursor_y, inner);
        self.cursor_x = x;
        self.cursor_y = y;
    }
}

/// The widget that paints the grid.
pub struct LifeWidget {}

impl LifeWidget {
    /// The grid widget.
    pub fn new() -> Self {
        LifeWidget {}
    }

    /// The grid cell to paint at screen cell (col, row), the grid's top-left
    /// cell standing at the corner of `inner`.
    pub fn cell_at(&self, life: &Life, inner: Rect, col: u16, row: u16) -> (r: LifeCell)
        requires
            life.wf(),
        ensures
            r == shown_cell(*life, inner, col as int, row as int),
    {
        if inner.x <= col && (col - inner.x) < inner.width && inner.y <= row && (row - inner.y)
            < inner.height {
            life.get_cell((col - inner.x) as usize, (row - inner.y) as usize)
        } else {
            LifeCell::Dead
        }
    }
}

} // verus!
