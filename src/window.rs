//! The interface of a window, and what a window reports after drawing.

use vstd::prelude::*;
use crate::event::{AppCommand, AppEvent};
use crate::geometry::Rect;

verus! {

/// Where the terminal cursor should be after a window has drawn, and whether
/// it should show.
#[derive(Debug, Clone, Copy, PartialEq, Eq, Structural)]
pub struct WindowDrawResult {
    pub cursor_x: u16,
    pub cursor_y: u16,
    pub cursor_visible: bool,
}

impl WindowDrawResult {
    /// A hidden cursor.
    pub open spec fn spec_hidden() -> WindowDrawResult {
        WindowDrawResult { cursor_x: 0, cursor_y: 0, cursor_visible: false }
    }

    /// A visible cursor at (x, y).
    pub open spec fn spec_visible(x: u16, y: u16) -> WindowDrawResult {
        WindowDrawResult { cursor_x: x, cursor_y: y, cursor_visible: true }
    }

    /// A visible cursor at (cursor_x, cursor_y).
    pub fn cursor_position(cursor_x: u16, cursor_y: u16) -> (r: Self)
        ensures
            r.cursor_x == cursor_x,
            r.cursor_y == cursor_y,
            r.cursor_visible,
    {
        Self { cursor_x, cursor_y, cursor_visible: true }
    }

    /// A hidden cursor.
    pub fn cursor_hide() -> (r: Self)
        ensures
            r.cursor_x == 0,
            r.cursor_y == 0,
            !r.cursor_visible,
    {
        Self { cursor_x: 0, cursor_y: 0, cursor_visible: false }
    }
}

impl Default for WindowDrawResult {
    /// A hidden cursor.
    fn default() -> (r: Self)
        ensures
            r.cursor_x == 0,
            r.cursor_y == 0,
            !r.cursor_visible,
    {
        Self::cursor_hide()
    }
}

/// Interface for a window: it sets itself up for the screen, draws itself,
/// and handles application events. Each kind of window says through the
/// spec functions what its methods do.
pub trait Window: Sized {
    /// The window's own invariant.
    spec fn inv(&self) -> bool;

    /// `next` is this window set up for a `width` by `height` screen.
    spec fn initialized(&self, width: u16, height: u16, next: &Self) -> bool;

    /// `next` is this window after drawing into `area`, and `r` what it
    /// reported.
    spec fn drawn(&self, area: Rect, next: &Self, r: Option<WindowDrawResult>) -> bool;

    /// `next` is this window after handling `event`, which it left as
    /// `event_after`, and `commands` what it gave.
    spec fn handled(
        &self,
        event: AppEvent,
        next: &Self,
        event_after: AppEvent,
        commands: Seq<AppCommand>,
    ) -> bool;

    /// Initialize given the terminal size.
    fn init(&mut self, width: u16, height: u16)
        requires
            old(self).inv(),
        ensures
            final(self).inv(),
            old(self).initialized(width, height, final(self)),
    ;

    /// Draw into `area` and say where the cursor goes.
    fn draw(&mut self, area: Rect) -> (r: Option<WindowDrawResult>)
        requires
            old(self).inv(),
        ensures
            final(self).inv(),
            old(self).drawn(area, final(self), r),
    ;

    /// Handle application events.
    fn handle_app_event(&mut self, app_event: &mut AppEvent) -> (r: Vec<AppCommand>)
        requires
            old(self).inv(),
        ensures
            final(self).inv(),
            old(self).handled(*old(app_event), final(self), *final(app_event), r@),
    ;
}

} // verus!
