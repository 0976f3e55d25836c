//! The help popup: it lists the keys, and any key press dismisses it.

use vstd::prelude::*;
use crate::event::{is_key_press, AppCommand, AppEvent, AppEventType, Event, KeyEventKind};
use crate::geometry::Rect;
use crate::window::{Window, WindowDrawResult};

verus! {

/// What the help popup answers to an event: whether the event goes on to the
/// windows below, and the commands it gives. A key press stops there and
/// asks for the popup to close; everything else passes through.
pub open spec fn help_response(event_type: AppEventType) -> (bool, Seq<AppCommand>) {
    if is_key_press(event_type) {
        (false, seq![AppCommand::CloseWindow])
    } else {
        (true, Seq::<AppCommand>::empty())
    }
}

/// The help popup window.
pub struct HelpWindow;

impl HelpWindow {
    /// The help popup.
    pub fn new() -> Self {
        HelpWindow
    }

    /// Draw the Help Window: the popup wants no cursor.
    pub fn draw(&mut self) -> (r: Option<WindowDrawResult>)
        ensures
            r == Some(WindowDrawResult::spec_hidden()),
    {
        Some(WindowDrawResult::cursor_hide())
    }

    /// Handle app events for the Help Window.
    pub fn handle_app_event(&mut self, app_event: &mut AppEvent) -> (r: Vec<AppCommand>)
        ensures
            final(app_event).event_type == old(app_event).event_type,
            final(app_event).propagate == (old(app_event).propagate && help_response(
                old(app_event).event_type,
            ).0),
            r@ == help_response(old(app_event).event_type).1,
    {
        match app_event.event_type {
            AppEventType::Event(Event::Key(key_event)) => {
                if key_event.kind == KeyEventKind::Press {
                    app_event.propagate = false;
                    let mut commands: Vec<AppCommand> = Vec::new();
                    commands.push(AppCommand::CloseWindow);
                    commands
                } else {
                    Vec::new()
                }
            },
            _ => Vec::new(),
        }
    }
}

impl Window for HelpWindow {
    open spec fn inv(&self) -> bool {
        true
    }

    open spec fn initialized(&self, width: u16, height: u16, next: &Self) -> bool {
        true
    }

    open spec fn drawn(&self, area: Rect, next: &Self, r: Option<WindowDrawResult>) -> bool {
        r == Some(WindowDrawResult::spec_hidden())
    }

    open spec fn handled(
        &self,
        event: AppEvent,
        next: &Self,
        event_after: AppEvent,
        commands: Seq<AppCommand>,
    ) -> bool {
        &&& event_after.event_type == event.event_type
        &&& event_after.propagate == (event.propagate && help_response(event.event_type).0)
        &&& commands == help_response(event.event_type).1
    }

    /// The popup needs no setting up.
    fn init(&mut self, width: u16, height: u16) {
    }

    /// The popup wants no cursor.
    fn draw(&mut self, area: Rect) -> (r: Option<WindowDrawResult>) {
        HelpWindow::draw(self)
    }

    /// Any key press closes the popup and goes no further.
    fn handle_app_event(&mut self, app_event: &mut AppEvent) -> (r: Vec<AppCommand>) {
        HelpWindow::handle_app_event(self, app_event)
    }
}

} // verus!
