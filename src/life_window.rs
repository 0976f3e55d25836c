//! The main window: the grid, a cursor to edit it with, and the keys that
//! drive the simulation.

use vstd::prelude::*;
use crate::event::{AppCommand, AppEvent, AppEventType, Event, KeyCode, KeyEvent, KeyEventKind};
use crate::geometry::{bordered_inner, clamp, clamp_to_rect, inside_border, last_x, last_y, sat_sub, Rect};
use crate::life::{flipped, Life};
use crate::rng::{advance, Rng, DEFAULT_SEED};
use crate::window::{Window, WindowDrawResult};

verus! {

/// Milliseconds between generations while the simulation runs.
pub const RUN_INTERVAL_MS: u64 = 20;

/// The cursor step that a key asks for, as (dx, dy): arrows and h j k l move
/// straight, y u b n diagonally.
pub open spec fn motion(code: KeyCode) -> (int, int) {
    match code {
        KeyCode::Up => (0, -1),
        KeyCode::Down => (0, 1),
        KeyCode::Left => (-1, 0),
        KeyCode::Right => (1, 0),
        KeyCode::Char(c) => if c == 'k' {
            (0, -1)
        } else if c == 'j' {
            (0, 1)
        } else if c == 'h' {
            (-1, 0)
        } else if c == 'l' {
            (1, 0)
        } else if c == 'y' {
            (-1, -1)
        } else if c == 'u' {
            (1, -1)
        } else if c == 'b' {
            (-1, 1)
        } else if c == 'n' {
            (1, 1)
        } else {
            (0, 0)
        },
        _ => (0, 0),
    }
}

/// A cursor coordinate moved by `d`, held inside the range of `u16`.
pub open spec fn moved(v: u16, d: int) -> u16 {
    clamp(v + d, 0, u16::MAX as int) as u16
}

/// The key ends the application.
pub open spec fn is_quit(code: KeyCode) -> bool {
    code == KeyCode::Char('q') || code == KeyCode::Esc
}

/// The value of a digit key.
pub open spec fn digit_of(code: KeyCode) -> Option<int> {
    match code {
        KeyCode::Char(c) => if '0' <= c && c <= '9' {
            Some(c as int - '0' as int)
        } else {
            None
        },
        _ => None,
    }
}

/// The repeat count after a key: a digit is appended to it in decimal
/// (held at `u32::MAX`); any other key resets it to zero.
pub open spec fn next_count(count: u32, code: KeyCode) -> u32 {
    match digit_of(code) {
        Some(d) => if count * 10 + d > u32::MAX {
            u32::MAX
        } else {
            (count * 10 + d) as u32
        },
        None => 0,
    }
}

/// The key moves the cursor when no repeat count is pending.
pub open spec fn is_direction(code: KeyCode) -> bool {
    motion(code) != (0int, 0int)
}

/// With a repeat count pending, a direction key draws a line of that many
/// cells from the cursor rightwards instead of moving the cursor.
pub open spec fn draws_line(code: KeyCode, count: u32) -> bool {
    is_direction(code) && count > 0
}

/// The key edits or steps the grid by hand, which ends a continuous run.
pub open spec fn stops_run(code: KeyCode, count: u32) -> bool {
    ||| draws_line(code, count)
    ||| code == KeyCode::Char('s')
    ||| code == KeyCode::Char(' ')
    ||| code == KeyCode::Char('t')
    ||| code == KeyCode::Char('c')
}

/// Whether the simulation runs after a key: `r` switches it, a manual edit
/// or step stops it, and other keys leave it.
pub open spec fn next_running(running: bool, code: KeyCode, count: u32) -> bool {
    if code == KeyCode::Char('r') {
        !running
    } else if stops_run(code, count) {
        false
    } else {
        running
    }
}

/// The commands a key gives: `Quit` or `HelpPopup` for those keys, then a
/// timer command exactly when the run state changed.
pub open spec fn key_commands(code: KeyCode, was_running: bool, running: bool) -> Seq<AppCommand> {
    let first = if is_quit(code) {
        seq![AppCommand::Quit]
    } else if code == KeyCode::Char('?') {
        seq![AppCommand::HelpPopup]
    } else {
        Seq::<AppCommand>::empty()
    };
    let timer = if was_running == running {
        Seq::<AppCommand>::empty()
    } else if running {
        seq![AppCommand::TimerStart(RUN_INTERVAL_MS)]
    } else {
        seq![AppCommand::TimerStop]
    };
    first + timer
}

/// Window to show the Life grid.
pub struct LifeWindow {
    /// The Life grid data structure.
    life: Life,
    /// Cursor X position, in screen cells.
    cursor_x: u16,
    /// Cursor Y position, in screen cells.
    cursor_y: u16,
    /// True if the life simulation is in continuous-run mode.
    running: bool,
    /// Tracker for prefix count on some commands.
    count: u32,
    /// Where random grids come from.
    rng: Rng,
}

impl LifeWindow {
    /// The grid.
    pub closed spec fn spec_life(&self) -> Life {
        self.life
    }

    /// The cursor's column on the screen.
    pub closed spec fn spec_cursor_x(&self) -> u16 {
        self.cursor_x
    }

    /// The cursor's row on the screen.
    pub closed spec fn spec_cursor_y(&self) -> u16 {
        self.cursor_y
    }

    /// The simulation is in continuous-run mode.
    pub closed spec fn spec_running(&self) -> bool {
        self.running
    }

    /// The pending repeat count.
    pub closed spec fn spec_count(&self) -> u32 {
        self.count
    }

    /// The state of the generator that random grids come from.
    pub closed spec fn spec_seed(&self) -> u64 {
        self.rng.spec_state()
    }

    /// The grid is well formed.
    pub open spec fn wf(&self) -> bool {
        self.spec_life().wf()
    }

    /// The grid cell under the cursor: the grid starts inside a one-cell
    /// border at the top-left of the screen.
    pub open spec fn cursor_cell(&self) -> (int, int) {
        (self.spec_cursor_x() - 1, self.spec_cursor_y() - 1)
    }

    /// What a key does to the grid and the generator.
    pub open spec fn key_grid_effect(&self, code: KeyCode, next: &LifeWindow) -> bool {
        let g = self.spec_life();
        let n = next.spec_life();
        let (x, y) = self.cursor_cell();
        let seed_kept = next.spec_seed() == self.spec_seed();
        if code == KeyCode::Char('s') {
            g.is_successor(&n) && n.wf() && seed_kept
        } else if code == KeyCode::Char(' ') || code == KeyCode::Char('t') {
            g.is_edit(&n, x, y, flipped(g.cell(x, y))) && seed_kept
        } else if code == KeyCode::Char('c') {
            g.is_cleared(&n) && seed_kept
        } else if code == KeyCode::Char('R') {
            &&& g.is_randomized(&n, self.spec_seed())
            &&& next.spec_seed() == advance(self.spec_seed(), g.spec_width() * g.spec_height())
        } else if draws_line(code, self.spec_count()) && x >= 0 && y >= 0 {
            g.is_line(&n, x, y, self.spec_count() as int) && seed_kept
        } else {
            n == g && seed_kept
        }
    }

    /// `next` is this window after the key `code` was pressed, and `commands`
    /// what the key gave.
    pub open spec fn key_step(&self, code: KeyCode, next: &LifeWindow, commands: Seq<AppCommand>) -> bool {
        let (dx, dy) = motion(code);
        let line = draws_line(code, self.spec_count());
        &&& next.wf()
        &&& self.key_grid_effect(code, next)
        &&& next.spec_running() == next_running(self.spec_running(), code, self.spec_count())
        &&& next.spec_count() == next_count(self.spec_count(), code)
        &&& next.spec_cursor_x() == if line {
            self.spec_cursor_x()
        } else {
            moved(self.spec_cursor_x(), dx)
        }
        &&& next.spec_cursor_y() == if line {
            self.spec_cursor_y()
        } else {
            moved(self.spec_cursor_y(), dy)
        }
        &&& commands == key_commands(code, self.spec_running(), next.spec_running())
    }

    /// `next` is this window with only its grid changed, to `life`.
    pub open spec fn with_life(&self, next: &LifeWindow, life: Life) -> bool {
        &&& next.spec_life() == life
        &&& next.spec_cursor_x() == self.spec_cursor_x()
        &&& next.spec_cursor_y() == self.spec_cursor_y()
        &&& next.spec_running() == self.spec_running()
        &&& next.spec_count() == self.spec_count()
        &&& next.spec_seed() == self.spec_seed()
    }

    /// `next` is this window set up for a `width` by `height` screen: a grid
    /// that fits inside the border, each cell a coin flip of the generator,
    /// the generator moved on by one flip per cell, and the cursor
    /// mid-screen; the run state and the repeat count stay.
    pub open spec fn is_init(&self, width: u16, height: u16, next: &LifeWindow) -> bool {
        let n = next.spec_life();
        &&& next.wf()
        &&& n.spec_width() == sat_sub(width as int, 2)
        &&& n.spec_height() == sat_sub(height as int, 2)
        &&& n.is_random(self.spec_seed())
        &&& next.spec_seed() == advance(self.spec_seed(), n.spec_width() * n.spec_height())
        &&& next.spec_cursor_x() == width / 2
        &&& next.spec_cursor_y() == height / 2
        &&& next.spec_running() == self.spec_running()
        &&& next.spec_count() == self.spec_count()
    }

    /// `next` is this window with its cursor moved to the nearest cell of
    /// the area inside the border round `area`, and nothing else changed.
    pub open spec fn is_drawn(&self, area: Rect, next: &LifeWindow) -> bool {
        let inner = inside_border(area);
        &&& next.spec_cursor_x() == clamp(self.spec_cursor_x() as int, inner.x as int, last_x(inner))
        &&& next.spec_cursor_y() == clamp(self.spec_cursor_y() as int, inner.y as int, last_y(inner))
        &&& inner.x <= next.spec_cursor_x() <= last_x(inner)
        &&& inner.y <= next.spec_cursor_y() <= last_y(inner)
        &&& next.spec_life() == self.spec_life()
        &&& next.spec_running() == self.spec_running()
        &&& next.spec_count() == self.spec_count()
        &&& next.spec_seed() == self.spec_seed()
    }

    /// Create a new LifeWindow, with an empty grid and the generator in its
    /// default state.
    pub fn new() -> (r: LifeWindow)
        ensures
            r.wf(),
            r.spec_life().spec_width() == 0,
            r.spec_life().spec_height() == 0,
            r.spec_cursor_x() == 0,
            r.spec_cursor_y() == 0,
            !r.spec_running(),
            r.spec_count() == 0,
            r.spec_seed() == DEFAULT_SEED,
    {
        Self::with_seed(0)
    }

    /// A new LifeWindow whose random grids come from a generator seeded
    /// with `seed`.
    pub fn with_seed(seed: u64) -> (r: LifeWindow)
        ensures
            r.wf(),
            r.spec_life().spec_width() == 0,
            r.spec_life().spec_height() == 0,
            r.spec_cursor_x() == 0,
            r.spec_cursor_y() == 0,
            !r.spec_running(),
            r.spec_count() == 0,
            r.spec_seed() == if seed == 0 {
                DEFAULT_SEED
            } else {
                seed
            },
    {
        LifeWindow {
            life: Life::new(),
            cursor_x: 0,
            cursor_y: 0,
            running: false,
            count: 0,
            rng: Rng::new(seed),
        }
    }

    /// True if the simulation is in continuous-run mode.
    pub fn is_running(&self) -> (r: bool)
        ensures
            r == self.spec_running(),
    {
        self.running
    }

    /// The grid.
    pub fn life(&self) -> (r: &Life)
        ensures
            *r == self.spec_life(),
    {
        &self.life
    }

    /// The cursor position, in screen cells.
    pub fn cursor(&self) -> (r: (u16, u16))
        ensures
            r == (self.spec_cursor_x(), self.spec_cursor_y()),
    {
        (self.cursor_x, self.cursor_y)
    }

    /// `next` is this window after the event `event_type`, and `commands`
    /// what it gave: a key press is handled as a key, a resize fits the grid
    /// inside the border of the new screen, a tick advances one generation,
    /// and anything else changes nothing.
    pub open spec fn event_step(&self, event_type: AppEventType, next: &LifeWindow, commands: Seq<AppCommand>) -> bool {
        match event_type {
            AppEventType::Event(Event::Key(k)) => if k.kind == KeyEventKind::Press {
                self.key_step(k.code, next, commands)
            } else {
                *next == *self && commands.len() == 0
            },
            AppEventType::Event(Event::Resize(w, h)) => {
                &&& self.spec_life().is_resize(&next.spec_life(), sat_sub(w as int, 2), sat_sub(h as int, 2))
                &&& self.with_life(next, next.spec_life())
                &&& commands.len() == 0
            },
            AppEventType::Tick => {
                &&& self.spec_life().is_successor(&next.spec_life())
                &&& next.wf()
                &&& self.with_life(next, next.spec_life())
                &&& commands.len() == 0
            },
            AppEventType::Event(Event::Other) => *next == *self && commands.len() == 0,
        }
    }

    /// Sizes the grid to fit inside the border of a `width` by `height`
    /// screen, fills it at random, and puts the cursor mid-screen.
    pub fn init(&mut self, width: u16, height: u16)
        requires
            old(self).wf(),
        ensures
            old(self).is_init(width, height, final(self)),
    {
        self.life.init(width.saturating_sub(2) as usize, height.saturating_sub(2) as usize);
        self.life.randomize(&mut self.rng);
        self.cursor_x = width / 2;
        self.cursor_y = height / 2;
    }

    /// Moves the cursor into the grid's area inside the border round `area`,
    /// and reports where it now is.
    pub fn draw(&mut self, area: Rect) -> (r: Option<WindowDrawResult>)
        ensures
            old(self).is_drawn(area, final(self)),
            r == Some(WindowDrawResult::spec_visible(final(self).spec_cursor_x(), final(self).spec_cursor_y())),
    {
        let inner = bordered_inner(area);
        let (x, y) = clamp_to_rect(self.cursor_x, self.cursor_y, inner);
        self.cursor_x = x;
        self.cursor_y = y;
        Some(WindowDrawResult::cursor_position(x, y))
    }

    /// Handle application events.
    pub fn handle_app_event(&mut self, app_event: &mut AppEvent) -> (r: Vec<AppCommand>)
        requires
            old(self).wf(),
        ensures
            final(self).wf(),
            old(self).event_step(old(app_event).event_type, final(self), r@),
            *final(app_event) == *old(app_event),
    {
        match app_event.event_type {
            AppEventType::Event(Event::Key(key_event)) => {
                if key_event.kind == KeyEventKind::Press {
                    self.handle_key_event(&key_event)
                } else {
                    Vec::new()
                }
            },
            AppEventType::Event(Event::Resize(width, height)) => {
                self.life.resize(width.saturating_sub(2) as usize, height.saturating_sub(2) as usize);
                Vec::new()
            },
            AppEventType::Tick => {
                self.life.step();
                Vec::new()
            },
            AppEventType::Event(Event::Other) => Vec::new(),
        }
    }

    /// Handle Life window key events.
    fn handle_key_event(&mut self, key_event: &KeyEvent) -> (r: Vec<AppCommand>)
        requires
            old(self).wf(),
        ensures
            old(self).key_step(key_event.code, final(self), r@),
    {
        let code = key_event.code;
        let was_running = self.running;
        let mut commands: Vec<AppCommand> = Vec::new();
        if code == KeyCode::Char('q') || code == KeyCode::Esc {
            commands.push(AppCommand::Quit);
        } else if code == KeyCode::Char('?') {
            commands.push(AppCommand::HelpPopup);
        }
        let (dx, dy) = key_motion(code);
        let line = self.count > 0 && (dx != 0 || dy != 0);
        if line {
            self.running = false;
            if self.cursor_x >= 1 && self.cursor_y >= 1 {
                self.life.horizontal_line(
                    (self.cursor_x - 1) as usize,
                    (self.cursor_y - 1) as usize,
                    self.count,
                );
            }
        } else {
            self.cursor_x = shift(self.cursor_x, dx);
            self.cursor_y = shift(self.cursor_y, dy);
        }
        if code == KeyCode::Char('s') {
            self.running = false;
            self.life.step();
        } else if code == KeyCode::Char(' ') || code == KeyCode::Char('t') {
            self.running = false;
            if self.cursor_x >= 1 && self.cursor_y >= 1 {
                self.life.toggle((self.cursor_x - 1) as usize, (self.cursor_y - 1) as usize);
            }
        } else if code == KeyCode::Char('c') {
            self.running = false;
            self.life.clear();
        } else if code == KeyCode::Char('R') {
            self.life.randomize(&mut self.rng);
        } else if code == KeyCode::Char('r') {
            self.running = !self.running;
        }
        self.count = count_after(self.count, code);
        if was_running != self.running {
            if self.running {
                commands.push(AppCommand::TimerStart(RUN_INTERVAL_MS));
            } else {
                commands.push(AppCommand::TimerStop);
            }
        }
        proof {
            assert(commands@ == key_commands(code, was_running, self.running));
        }
        commands
    }
}

impl Window for LifeWindow {
    open spec fn inv(&self) -> bool {
        self.wf()
    }

    open spec fn initialized(&self, width: u16, height: u16, next: &Self) -> bool {
        self.is_init(width, height, next)
    }

    open spec fn drawn(&self, area: Rect, next: &Self, r: Option<WindowDrawResult>) -> bool {
        &&& self.is_drawn(area, next)
        &&& r == Some(WindowDrawResult::spec_visible(next.spec_cursor_x(), next.spec_cursor_y()))
    }

    open spec fn handled(
        &self,
        event: AppEvent,
        next: &Self,
        event_after: AppEvent,
        commands: Seq<AppCommand>,
    ) -> bool {
        &&& self.event_step(event.event_type, next, commands)
        &&& event_after == event
    }

    /// Sizes the grid for the screen, fills it at random, centres the cursor.
    fn init(&mut self, width: u16, height: u16) {
        LifeWindow::init(self, width, height)
    }

    /// Clamps the cursor into the grid's area and reports it.
    fn draw(&mut self, area: Rect) -> (r: Option<WindowDrawResult>) {
        LifeWindow::draw(self, area)
    }

    /// Handles keys, resizes and ticks.
    fn handle_app_event(&mut self, app_event: &mut AppEvent) -> (r: Vec<AppCommand>) {
        LifeWindow::handle_app_event(self, app_event)
    }
}

/// `v` moved by `d`, held inside the range of `u16`.
fn shift(v: u16, d: i8) -> (r: u16)
    requires
        -1 <= d <= 1,
    ensures
        r == moved(v, d as int),
{
    if d < 0 {
        if v > 0 {
            v - 1
        } else {
            0
        }
    } else if d > 0 {
        if v < u16::MAX {
            v + 1
        } else {
            u16::MAX
        }
    } else {
        v
    }
}

/// The cursor step of a key.
fn key_motion(code: KeyCode) -> (r: (i8, i8))
    ensures
        -1 <= r.0 <= 1,
        -1 <= r.1 <= 1,
        (r.0 as int, r.1 as int) == motion(code),
{
    match code {
        KeyCode::Up => (0, -1),
        KeyCode::Down => (0, 1),
        KeyCode::Left => (-1, 0),
        KeyCode::Right => (1, 0),
        KeyCode::Char(c) => if c == 'k' {
            (0, -1)
        } else if c == 'j' {
            (0, 1)
        } else if c == 'h' {
            (-1, 0)
        } else if c == 'l' {
            (1, 0)
        } else if c == 'y' {
            (-1, -1)
        } else if c == 'u' {
            (1, -1)
        } else if c == 'b' {
            (-1, 1)
        } else if c == 'n' {
            (1, 1)
        } else {
            (0, 0)
        },
        _ => (0, 0),
    }
}

/// The repeat count after `code`.
fn count_after(count: u32, code: KeyCode) -> (r: u32)
    ensures
        r == next_count(count, code),
{
    match code {
        KeyCode::Char(c) => if '0' <= c && c <= '9' {
            let v: u64 = count as u64 * 10 + (c as u32 - '0' as u32) as u64;
            if v > u32::MAX as u64 {
                u32::MAX
            } else {
                v as u32
            }
        } else {
            0
        },
        _ => 0,
    }
}

/// The command starts or stops the tick timer.
pub open spec fn is_timer_command(c: AppCommand) -> bool {
    match c {
        AppCommand::TimerStart(_) | AppCommand::TimerStop => true,
        _ => false,
    }
}

/// `r` switches the run on with exactly one `TimerStart` of the run interval
/// and off with exactly one `TimerStop`; any key that ends a run gives just
/// that `TimerStop`; and a key that leaves the run state as it was gives no
/// timer command.
pub proof fn law_run_toggle_commands(w: LifeWindow, code: KeyCode, next: LifeWindow, commands: Seq<AppCommand>)
    requires
        w.key_step(code, &next, commands),
    ensures
        code == KeyCode::Char('r') && !w.spec_running() ==> next.spec_running() && commands == seq![
            AppCommand::TimerStart(RUN_INTERVAL_MS),
        ],
        code == KeyCode::Char('r') && w.spec_running() ==> !next.spec_running() && commands == seq![
            AppCommand::TimerStop,
        ],
        w.spec_running() && !next.spec_running() ==> commands == seq![AppCommand::TimerStop],
        w.spec_running() == next.spec_running() ==> forall|i: int|
            0 <= i < commands.len() ==> !is_timer_command(#[trigger] commands[i]),
{
    let first = if is_quit(code) {
        seq![AppCommand::Quit]
    } else if code == KeyCode::Char('?') {
        seq![AppCommand::HelpPopup]
    } else {
        Seq::<AppCommand>::empty()
    };
    if w.spec_running() != next.spec_running() {
        assert(first =~= Seq::<AppCommand>::empty());
        assert(commands =~= key_commands(code, w.spec_running(), next.spec_running()));
    } else {
        assert(commands =~= first);
    }
}

/// `t` or space flips the grid cell under the cursor where it lies in the
/// grid, changes no other cell, and ends a continuous run.
pub proof fn law_toggle_key(w: LifeWindow, code: KeyCode, next: LifeWindow, commands: Seq<AppCommand>)
    requires
        w.key_step(code, &next, commands),
        code == KeyCode::Char('t') || code == KeyCode::Char(' '),
    ensures
        ({
            let (x, y) = w.cursor_cell();
            let g = w.spec_life();
            forall|i: int, j: int| #[trigger] next.spec_life().cell(i, j) == if i == x && j == y && g.in_bounds(i, j) {
                flipped(g.cell(i, j))
            } else {
                g.cell(i, j)
            }
        }),
        !next.spec_running(),
{
}

/// With no repeat count pending, a direction key moves the cursor by its
/// step, held inside the range of `u16`, and changes neither the grid nor
/// the run state; it gives no command.
pub proof fn law_motion_key(w: LifeWindow, code: KeyCode, next: LifeWindow, commands: Seq<AppCommand>)
    requires
        w.key_step(code, &next, commands),
        w.spec_count() == 0,
        is_direction(code),
    ensures
        next.spec_cursor_x() == moved(w.spec_cursor_x(), motion(code).0),
        next.spec_cursor_y() == moved(w.spec_cursor_y(), motion(code).1),
        next.spec_life() == w.spec_life(),
        next.spec_running() == w.spec_running(),
        commands.len() == 0,
{
    assert(commands =~= Seq::<AppCommand>::empty());
}

/// `r` changes neither the grid nor the cursor.
pub proof fn law_run_key_keeps_grid(w: LifeWindow, next: LifeWindow, commands: Seq<AppCommand>)
    requires
        w.key_step(KeyCode::Char('r'), &next, commands),
    ensures
        next.spec_life() == w.spec_life(),
        next.spec_cursor_x() == w.spec_cursor_x(),
        next.spec_cursor_y() == w.spec_cursor_y(),
{
}

/// `?` gives exactly `HelpPopup`, changes neither the grid, the cursor nor
/// the run state, and clears the repeat count.
pub proof fn law_help_key(w: LifeWindow, next: LifeWindow, commands: Seq<AppCommand>)
    requires
        w.key_step(KeyCode::Char('?'), &next, commands),
    ensures
        commands == seq![AppCommand::HelpPopup],
        next.spec_life() == w.spec_life(),
        next.spec_cursor_x() == w.spec_cursor_x(),
        next.spec_cursor_y() == w.spec_cursor_y(),
        next.spec_running() == w.spec_running(),
        next.spec_count() == 0,
{
    assert(commands =~= seq![AppCommand::HelpPopup]);
}

/// Where `area` lies wholly inside the range of `u16` and is at least two
/// cells wide and high, the border leaves the rectangle from (x + 1, y + 1)
/// of width - 2 by height - 2 cells, and a draw puts the cursor in it
/// wherever it has room.
pub proof fn law_draw_inside_border(w: LifeWindow, area: Rect, next: LifeWindow)
    requires
        w.is_drawn(area, &next),
        area.x + area.width <= u16::MAX,
        area.y + area.height <= u16::MAX,
        area.width >= 2,
        area.height >= 2,
    ensures
        inside_border(area) == (Rect {
            x: (area.x + 1) as u16,
            y: (area.y + 1) as u16,
            width: (area.width - 2) as u16,
            height: (area.height - 2) as u16,
        }),
        area.width > 2 ==> area.x + 1 <= next.spec_cursor_x() <= area.x + area.width - 2,
        area.height > 2 ==> area.y + 1 <= next.spec_cursor_y() <= area.y + area.height - 2,
{
}

} // verus!
