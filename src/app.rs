//! The application's decisions: which window sees an event, and what the
//! commands that windows give do to the loop's state. The loop itself (the
//! terminal, the clock, the wait for input) runs outside and calls in here.

use vstd::prelude::*;
use crate::event::{AppCommand, AppEvent, AppEventType, Event, KeyCode, KeyEvent, KeyEventKind};
use crate::geometry::Rect;
use crate::help_window::{help_response, HelpWindow};
use crate::life_window::LifeWindow;
use crate::rng::DEFAULT_SEED;
use crate::window::WindowDrawResult;

verus! {

/// The state of the loop around the windows.
#[derive(Debug, Clone, Copy, PartialEq, Eq, Structural)]
pub struct LoopState {
    /// The help popup is shown, and sees events first.
    pub help_active: bool,
    /// Milliseconds between ticks while the timer runs.
    pub interval_ms: u64,
    /// When the next tick is due, in milliseconds of the loop's clock; `None`
    /// while the timer is stopped.
    pub next_tick: Option<u64>,
    /// The loop is to end.
    pub quit: bool,
}

/// `a + b`, held at `u64::MAX`.
pub open spec fn sat_add_u64(a: u64, b: u64) -> u64 {
    if a + b > u64::MAX {
        u64::MAX
    } else {
        (a + b) as u64
    }
}

/// The loop state after one command, at time `now`.
pub open spec fn apply(s: LoopState, command: AppCommand, now: u64) -> LoopState {
    match command {
        AppCommand::Quit => LoopState { quit: true, ..s },
        AppCommand::HelpPopup => LoopState { help_active: true, ..s },
        AppCommand::CloseWindow => LoopState { help_active: false, ..s },
        AppCommand::TimerStart(interval) => LoopState {
            interval_ms: interval,
            next_tick: Some(now),
            ..s
        },
        AppCommand::TimerStop => LoopState { next_tick: None, ..s },
    }
}

/// The loop state after `commands`, in order.
pub open spec fn apply_all(s: LoopState, commands: Seq<AppCommand>, now: u64) -> LoopState
    decreases commands.len(),
{
    if commands.len() == 0 {
        s
    } else {
        apply(apply_all(s, commands.drop_last(), now), commands.last(), now)
    }
}

/// The loop state once an event has arrived at time `now`: a tick makes the
/// next one due one interval later.
pub open spec fn after_event(s: LoopState, event_type: AppEventType, now: u64) -> LoopState {
    if event_type == AppEventType::Tick && s.next_tick.is_some() {
        LoopState { next_tick: Some(sat_add_u64(now, s.interval_ms)), ..s }
    } else {
        s
    }
}

/// The application: the grid window, the help popup over it, and the state
/// of the loop that drives them.
pub struct App {
    life_window: LifeWindow,
    help_window: HelpWindow,
    state: LoopState,
}

impl App {
    /// The grid window.
    pub closed spec fn spec_life_window(&self) -> LifeWindow {
        self.life_window
    }

    /// The state of the loop.
    pub closed spec fn spec_state(&self) -> LoopState {
        self.state
    }

    /// The grid window is well formed.
    pub open spec fn wf(&self) -> bool {
        self.spec_life_window().wf()
    }

    /// `next` is this application after `event_type` arrived at time `now`,
    /// and `commands` what the windows gave. The popup, when shown, sees the
    /// event first; the grid window sees it unless the popup stopped it.
    /// Then the commands act on the loop state, in order.
    pub open spec fn dispatched(
        &self,
        event_type: AppEventType,
        now: u64,
        next: &App,
        commands: Seq<AppCommand>,
    ) -> bool {
        let (passes, from_help) = if self.spec_state().help_active {
            help_response(event_type)
        } else {
            (true, Seq::<AppCommand>::empty())
        };
        let from_life = commands.skip(from_help.len() as int);
        &&& next.wf()
        &&& commands.len() >= from_help.len()
        &&& commands.take(from_help.len() as int) == from_help
        &&& if passes {
            self.spec_life_window().event_step(event_type, &next.spec_life_window(), from_life)
        } else {
            next.spec_life_window() == self.spec_life_window() && from_life.len() == 0
        }
        &&& next.spec_state() == apply_all(after_event(self.spec_state(), event_type, now), commands, now)
    }

    /// A new application: an empty grid, no popup, the timer stopped.
    pub fn new() -> (r: App)
        ensures
            r.wf(),
            r.spec_life_window().spec_life().spec_width() == 0,
            r.spec_life_window().spec_life().spec_height() == 0,
            r.spec_life_window().spec_cursor_x() == 0,
            r.spec_life_window().spec_cursor_y() == 0,
            !r.spec_life_window().spec_running(),
            r.spec_life_window().spec_count() == 0,
            r.spec_life_window().spec_seed() == DEFAULT_SEED,
            r.spec_state() == (LoopState { help_active: false, interval_ms: 0, next_tick: None, quit: false }),
    {
        Self::with_window(LifeWindow::new())
    }

    /// A new application around `life_window`, with no popup and the timer
    /// stopped.
    pub fn with_window(life_window: LifeWindow) -> (r: App)
        requires
            life_window.wf(),
        ensures
            r.wf(),
            r.spec_life_window() == life_window,
            r.spec_state() == (LoopState { help_active: false, interval_ms: 0, next_tick: None, quit: false }),
    {
        App {
            life_window,
            help_window: HelpWindow::new(),
            state: LoopState { help_active: false, interval_ms: 0, next_tick: None, quit: false },
        }
    }

    /// The grid window.
    pub fn life_window(&self) -> (r: &LifeWindow)
        ensures
            *r == self.spec_life_window(),
    {
        &self.life_window
    }

    /// The state of the loop.
    pub fn state(&self) -> (r: LoopState)
        ensures
            r == self.spec_state(),
    {
        self.state
    }

    /// Sets the grid window up for a `width` by `height` screen.
    pub fn init(&mut self, width: u16, height: u16)
        requires
            old(self).wf(),
        ensures
            final(self).wf(),
            old(self).spec_life_window().is_init(width, height, &final(self).spec_life_window()),
            final(self).spec_state() == old(self).spec_state(),
    {
        self.life_window.init(width, height);
    }

    /// How long the loop may wait for input at time `now` before the next
    /// tick is due; `None` when no tick is scheduled and it may wait for ever.
    pub fn timeout(&self, now: u64) -> (r: Option<u64>)
        ensures
            r == match self.spec_state().next_tick {
                Some(t) => Some(if t >= now { (t - now) as u64 } else { 0u64 }),
                None => None,
            },
    {
        match self.state.next_tick {
            Some(t) => Some(t.saturating_sub(now)),
            None => None,
        }
    }

    /// Lets the windows draw into a screen of size `area`, and says where the
    /// cursor goes: the popup, when shown, hides it.
    pub fn draw(&mut self, area: Rect) -> (r: Option<WindowDrawResult>)
        requires
            old(self).wf(),
        ensures
            final(self).wf(),
            final(self).spec_state() == old(self).spec_state(),
            old(self).spec_life_window().is_drawn(area, &final(self).spec_life_window()),
            old(self).spec_state().help_active ==> r == Some(WindowDrawResult::spec_hidden()),
            !old(self).spec_state().help_active ==> r == Some(
                WindowDrawResult::spec_visible(
                    final(self).spec_life_window().spec_cursor_x(),
                    final(self).spec_life_window().spec_cursor_y(),
                ),
            ),
    {
        let result = self.life_window.draw(area);
        if self.state.help_active {
            self.help_window.draw()
        } else {
            result
        }
    }

    /// Routes an event that arrived at time `now` through the windows and
    /// carries out the commands they give. Returns those commands.
    pub fn handle_event(&mut self, event_type: AppEventType, now: u64) -> (r: Vec<AppCommand>)
        requires
            old(self).wf(),
        ensures
            old(self).dispatched(event_type, now, final(self), r@),
    {
        let mut app_event = AppEvent::new(event_type);
        let mut commands: Vec<AppCommand> = Vec::new();
        if self.state.help_active {
            let mut from_help = self.help_window.handle_app_event(&mut app_event);
            commands.append(&mut from_help);
        }
        let ghost help_part = commands@;
        assert(app_event.event_type == event_type);
        if app_event.propagate {
            let mut from_life = self.life_window.handle_app_event(&mut app_event);
            let ghost life_part = from_life@;
            commands.append(&mut from_life);
            proof {
                assert(commands@.skip(help_part.len() as int) =~= life_part);
            }
        }
        proof {
            assert(commands@.take(help_part.len() as int) =~= help_part);
            if !app_event.propagate {
                assert(commands@.skip(help_part.len() as int) =~= Seq::<AppCommand>::empty());
            }
        }
        if event_type == AppEventType::Tick {
            if let Some(_) = self.state.next_tick {
                self.state.next_tick = Some(now.saturating_add(self.state.interval_ms));
            }
        }
        let ghost start = self.state;
        let ghost window_after = self.life_window;
        let mut i: usize = 0;
        while i < commands.len()
            invariant
                i <= commands@.len(),
                self.life_window == window_after,
                self.state == apply_all(start, commands@.take(i as int), now),
            decreases commands@.len() - i,
        {
            let command = commands[i];
            proof {
                assert(commands@.take(i + 1).drop_last() =~= commands@.take(i as int));
            }
            self.state = apply_command(self.state, command, now);
            i = i + 1;
        }
        proof {
            assert(commands@.take(commands@.len() as int) =~= commands@);
        }
        commands
    }
}

/// The loop state after `command`, at time `now`.
fn apply_command(s: LoopState, command: AppCommand, now: u64) -> (r: LoopState)
    ensures
        r == apply(s, command, now),
{
    match command {
        AppCommand::Quit => LoopState { quit: true, ..s },
        AppCommand::HelpPopup => LoopState { help_active: true, ..s },
        AppCommand::CloseWindow => LoopState { help_active: false, ..s },
        AppCommand::TimerStart(interval) => LoopState {
            interval_ms: interval,
            next_tick: Some(now),
            ..s
        },
        AppCommand::TimerStop => LoopState { next_tick: None, ..s },
    }
}

proof fn lemma_apply_one(s: LoopState, c: AppCommand, now: u64)
    ensures
        apply_all(s, seq![c], now) == apply(s, c, now),
{
    assert(seq![c].drop_last() =~= Seq::<AppCommand>::empty());
    assert(apply_all(s, Seq::<AppCommand>::empty(), now) == s);
    assert(seq![c].last() == c);
}

/// Pressing `?` opens the help popup; the next key press then closes it and
/// reaches the grid window not at all: its cursor and grid stay as they were.
pub proof fn law_help_then_key(
    a: App,
    now: u64,
    opened: App,
    opening: Seq<AppCommand>,
    key: KeyEvent,
    later: u64,
    closed: App,
    closing: Seq<AppCommand>,
)
    requires
        a.wf(),
        !a.spec_state().help_active,
        a.dispatched(
            AppEventType::Event(Event::Key(KeyEvent { code: KeyCode::Char('?'), kind: KeyEventKind::Press })),
            now,
            &opened,
            opening,
        ),
        key.kind == KeyEventKind::Press,
        opened.dispatched(AppEventType::Event(Event::Key(key)), later, &closed, closing),
    ensures
        opened.spec_state().help_active,
        !closed.spec_state().help_active,
        closed.spec_life_window() == opened.spec_life_window(),
        closing == seq![AppCommand::CloseWindow],
{
    assert(opening.skip(0) =~= opening);
    lemma_apply_one(a.spec_state(), AppCommand::HelpPopup, now);
    assert(closing =~= seq![AppCommand::CloseWindow]) by {
        assert(closing.take(1) == seq![AppCommand::CloseWindow]);
        assert(closing.skip(1).len() == 0);
        assert(closing =~= closing.take(1) + closing.skip(1));
    }
    lemma_apply_one(after_event(opened.spec_state(), AppEventType::Event(Event::Key(key)), later), AppCommand::CloseWindow, later);
}

} // verus!
