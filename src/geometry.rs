//! Screen rectangles in character cells, and the cursor arithmetic done on
//! them.

use vstd::math::min;
use vstd::prelude::*;

verus! {

/// A rectangle of the screen: its top-left cell and its size.
#[derive(Debug, Clone, Copy, PartialEq, Eq, Structural)]
pub struct Rect {
    pub x: u16,
    pub y: u16,
    pub width: u16,
    pub height: u16,
}

/// `a + b`, held at `u16::MAX`.
pub open spec fn sat_add(a: int, b: int) -> int {
    if a + b > u16::MAX {
        u16::MAX as int
    } else {
        a + b
    }
}

/// `a - b`, held at zero.
pub open spec fn sat_sub(a: int, b: int) -> int {
    if a - b < 0 {
        0
    } else {
        a - b
    }
}

/// `v` brought into `lo..=hi` (where `lo <= hi`).
pub open spec fn clamp(v: int, lo: int, hi: int) -> int {
    if v < lo {
        lo
    } else if v > hi {
        hi
    } else {
        v
    }
}

/// The last column of `r`, or its first column where it has no width.
pub open spec fn last_x(r: Rect) -> int {
    sat_add(r.x as int, sat_sub(r.width as int, 1))
}

/// The last row of `r`, or its first row where it has no height.
pub open spec fn last_y(r: Rect) -> int {
    sat_add(r.y as int, sat_sub(r.height as int, 1))
}

/// The area inside a one-cell border drawn round `area`.
pub open spec fn inside_border(area: Rect) -> Rect {
    Rect {
        x: min(sat_add(area.x as int, 1), sat_add(area.x as int, area.width as int)) as u16,
        y: min(sat_add(area.y as int, 1), sat_add(area.y as int, area.height as int)) as u16,
        width: sat_sub(area.width as int, 2) as u16,
        height: sat_sub(area.height as int, 2) as u16,
    }
}

/// Relies on ratatui's `Block::inner` for a block with borders on all four
/// sides and no padding: the border takes one cell off each edge.
#[verifier::external_body]
pub(crate) fn bordered_inner(area: Rect) -> (r: Rect)
    ensures
        r == inside_border(area),
{
    let outer = ratatui::layout::Rect {
        x: area.x,
        y: area.y,
        width: area.width,
        height: area.height,
    };
    let inner = ratatui::widgets::Block::bordered().inner(outer);
    Rect { x: inner.x, y: inner.y, width: inner.width, height: inner.height }
}

/// Moves (x, y) to the nearest cell of `rect`; a rectangle without width or
/// height keeps the cursor on its first column or row.
pub fn clamp_to_rect(x: u16, y: u16, rect: Rect) -> (r: (u16, u16))
    ensures
        r.0 == clamp(x as int, rect.x as int, last_x(rect)),
        r.1 == clamp(y as int, rect.y as int, last_y(rect)),
        rect.x <= r.0 <= last_x(rect),
        rect.y <= r.1 <= last_y(rect),
{
    let max_x = rect.x.saturating_add(rect.width.saturating_sub(1));
    let max_y = rect.y.saturating_add(rect.height.saturating_sub(1));
    let cx = if x < rect.x {
        rect.x
    } else if x > max_x {
        max_x
    } else {
        x
    };
    let cy = if y < rect.y {
        rect.y
    } else if y > max_y {
        max_y
    } else {
        y
    };
    (cx, cy)
}

} // verus!
