//! What the application loop hands to windows (key presses, resizes, timer
//! ticks) and what windows hand back (commands for the loop).

use vstd::prelude::*;

verus! {

/// The key of a key event.
#[derive(Debug, Clone, Copy, PartialEq, Eq, Structural)]
pub enum KeyCode {
    Char(char),
    Up,
    Down,
    Left,
    Right,
    Esc,
    /// Any key the windows give no meaning to.
    Other,
}

/// Whether a key went down, repeats while held, or came up.
#[derive(Debug, Clone, Copy, PartialEq, Eq, Structural)]
pub enum KeyEventKind {
    Press,
    Repeat,
    Release,
}

/// A key event from the terminal.
#[derive(Debug, Clone, Copy, PartialEq, Eq, Structural)]
pub struct KeyEvent {
    pub code: KeyCode,
    pub kind: KeyEventKind,
}

/// An event from the terminal.
#[derive(Debug, Clone, Copy, PartialEq, Eq, Structural)]
pub enum Event {
    Key(KeyEvent),
    /// The terminal now has this many columns and rows.
    Resize(u16, u16),
    /// Any other terminal event; windows ignore it.
    Other,
}

/// What an application event carries: a terminal event, or a timer tick.
#[derive(Debug, Clone, Copy, PartialEq, Eq, Structural)]
pub enum AppEventType {
    Event(Event),
    Tick,
}

/// An event on its way down the window stack. A window clears `propagate`
/// to keep the windows below it from seeing the event.
#[derive(Debug, Clone, Copy, PartialEq, Eq, Structural)]
pub struct AppEvent {
    pub event_type: AppEventType,
    pub propagate: bool,
}

impl AppEvent {
    /// An event that every window will see unless one stops it.
    pub fn new(event_type: AppEventType) -> (r: Self)
        ensures
            r.event_type == event_type,
            r.propagate,
    {
        AppEvent { event_type, propagate: true }
    }
}

/// A request from a window to the application loop.
#[derive(Debug, Clone, Copy, PartialEq, Eq, Structural)]
pub enum AppCommand {
    /// End the application.
    Quit,
    /// Show the help popup.
    HelpPopup,
    /// Dismiss the popup that sent this command.
    CloseWindow,
    /// Send a tick every this many milliseconds, the first one now.
    TimerStart(u64),
    /// Send no more ticks.
    TimerStop,
}

/// The event is a key being pressed (not repeated or released).
pub open spec fn is_key_press(event_type: AppEventType) -> bool {
    match event_type {
        AppEventType::Event(Event::Key(k)) => k.kind == KeyEventKind::Press,
        _ => false,
    }
}

} // verus!
