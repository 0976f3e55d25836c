use conway_tui::event::{AppCommand, AppEvent, AppEventType, Event, KeyCode, KeyEvent, KeyEventKind};
use conway_tui::geometry::{clamp_to_rect, Rect};
use conway_tui::help_window::HelpWindow;
use conway_tui::life::LifeCell;
use conway_tui::life_window::{LifeWindow, RUN_INTERVAL_MS};
use conway_tui::widgets::{HelpWidget, LifeWidget, LifeWidgetState};
use conway_tui::window::{Window, WindowDrawResult};

fn press(code: KeyCode) -> AppEvent {
    AppEvent::new(AppEventType::Event(Event::Key(KeyEvent { code, kind: KeyEventKind::Press })))
}

fn send(window: &mut LifeWindow, code: KeyCode) -> Vec<AppCommand> {
    let mut event = press(code);
    window.handle_app_event(&mut event)
}

fn live_count(window: &LifeWindow) -> usize {
    let life = window.life();
    let mut n = 0;
    for y in 0..life.get_height() {
        for x in 0..life.get_width() {
            if life.get_cell(x, y) == LifeCell::Alive {
                n += 1;
            }
        }
    }
    n
}

/// A 10 by 8 screen, so a grid of 8 by 6 cells, cleared, cursor at (5, 4).
fn cleared_window() -> LifeWindow {
    let mut window = LifeWindow::with_seed(99);
    window.init(10, 8);
    send(&mut window, KeyCode::Char('c'));
    window
}

#[test]
fn init_sizes_grid_and_centres_cursor() {
    let mut window = LifeWindow::new();
    assert!(!window.is_running());
    window.init(30, 20);
    assert_eq!(window.life().get_width(), 28);
    assert_eq!(window.life().get_height(), 18);
    assert_eq!(window.cursor(), (15, 10));
    let mut tiny = LifeWindow::new();
    tiny.init(1, 0);
    assert_eq!((tiny.life().get_width(), tiny.life().get_height()), (0, 0));
}

#[test]
fn run_toggle_emits_timer_commands() {
    let mut window = cleared_window();
    assert_eq!(send(&mut window, KeyCode::Char('r')), vec![AppCommand::TimerStart(RUN_INTERVAL_MS)]);
    assert!(window.is_running());
    assert_eq!(RUN_INTERVAL_MS, 20);
    assert_eq!(send(&mut window, KeyCode::Char('k')), vec![]);
    assert_eq!(send(&mut window, KeyCode::Char('R')), vec![]);
    assert!(window.is_running());
    assert_eq!(send(&mut window, KeyCode::Char('r')), vec![AppCommand::TimerStop]);
    assert!(!window.is_running());
    assert_eq!(send(&mut window, KeyCode::Char('j')), vec![]);
}

#[test]
fn manual_edit_stops_run() {
    for key in ['s', 't', ' ', 'c'] {
        let mut window = cleared_window();
        send(&mut window, KeyCode::Char('r'));
        assert_eq!(send(&mut window, KeyCode::Char(key)), vec![AppCommand::TimerStop]);
        assert!(!window.is_running());
    }
}

#[test]
fn quit_and_help_keys() {
    let mut window = cleared_window();
    assert_eq!(send(&mut window, KeyCode::Char('q')), vec![AppCommand::Quit]);
    assert_eq!(send(&mut window, KeyCode::Esc), vec![AppCommand::Quit]);
    assert_eq!(send(&mut window, KeyCode::Char('?')), vec![AppCommand::HelpPopup]);
    assert_eq!(send(&mut window, KeyCode::Other), vec![]);
}

#[test]
fn cursor_moves_in_eight_directions() {
    let mut window = cleared_window();
    let start = window.cursor();
    let moves = [
        (KeyCode::Up, (0, -1)),
        (KeyCode::Char('k'), (0, -1)),
        (KeyCode::Down, (0, 1)),
        (KeyCode::Char('j'), (0, 1)),
        (KeyCode::Left, (-1, 0)),
        (KeyCode::Char('h'), (-1, 0)),
        (KeyCode::Right, (1, 0)),
        (KeyCode::Char('l'), (1, 0)),
        (KeyCode::Char('y'), (-1, -1)),
        (KeyCode::Char('u'), (1, -1)),
        (KeyCode::Char('b'), (-1, 1)),
        (KeyCode::Char('n'), (1, 1)),
    ];
    for (code, (dx, dy)) in moves {
        let before = window.cursor();
        send(&mut window, code);
        let after = window.cursor();
        assert_eq!(after.0 as i32 - before.0 as i32, dx);
        assert_eq!(after.1 as i32 - before.1 as i32, dy);
    }
    assert_eq!(window.cursor(), start);
}

#[test]
fn cursor_stays_in_range_at_zero() {
    let mut window = cleared_window();
    for _ in 0..20 {
        send(&mut window, KeyCode::Char('y'));
    }
    assert_eq!(window.cursor(), (0, 0));
    // At (0, 0) the cursor is on the border: toggling there changes nothing.
    send(&mut window, KeyCode::Char('t'));
    assert_eq!(live_count(&window), 0);
}

#[test]
fn draw_keeps_cursor_inside_border() {
    let mut window = cleared_window();
    for _ in 0..40 {
        send(&mut window, KeyCode::Char('n'));
    }
    let area = Rect { x: 0, y: 0, width: 10, height: 8 };
    let drawn = window.draw(area).unwrap();
    assert_eq!((drawn.cursor_x, drawn.cursor_y, drawn.cursor_visible), (8, 6, true));
    for _ in 0..40 {
        send(&mut window, KeyCode::Char('y'));
    }
    let drawn = window.draw(area).unwrap();
    assert_eq!((drawn.cursor_x, drawn.cursor_y), (1, 1));
    assert_eq!(window.cursor(), (1, 1));
}

#[test]
fn draw_on_tiny_screen_keeps_cursor_on_first_cell() {
    let mut window = cleared_window();
    let drawn = window.draw(Rect { x: 3, y: 2, width: 1, height: 0 }).unwrap();
    assert_eq!((drawn.cursor_x, drawn.cursor_y), (4, 2));
}

#[test]
fn toggle_key_flips_cell_under_cursor() {
    let mut window = cleared_window();
    assert_eq!(window.cursor(), (5, 4));
    send(&mut window, KeyCode::Char('t'));
    assert_eq!(window.life().get_cell(4, 3), LifeCell::Alive);
    assert_eq!(live_count(&window), 1);
    send(&mut window, KeyCode::Char(' '));
    assert_eq!(live_count(&window), 0);
}

#[test]
fn count_then_left_draws_line() {
    let mut window = cleared_window();
    send(&mut window, KeyCode::Char('1'));
    send(&mut window, KeyCode::Char('0'));
    send(&mut window, KeyCode::Char('h'));
    // Row 3 from column 4 up to the right edge at column 7.
    assert_eq!(live_count(&window), 4);
    for x in 4..8 {
        assert_eq!(window.life().get_cell(x, 3), LifeCell::Alive);
    }
    assert_eq!(window.cursor(), (5, 4));
    // The count was used up: the next left key moves.
    send(&mut window, KeyCode::Left);
    assert_eq!(window.cursor(), (4, 4));
    assert_eq!(live_count(&window), 4);
}

#[test]
fn count_resets_after_other_key() {
    let mut window = cleared_window();
    send(&mut window, KeyCode::Char('3'));
    send(&mut window, KeyCode::Char('x'));
    send(&mut window, KeyCode::Char('h'));
    assert_eq!(live_count(&window), 0);
    assert_eq!(window.cursor(), (4, 4));
}

#[test]
fn step_key_and_tick_advance_grid() {
    let mut window = cleared_window();
    send(&mut window, KeyCode::Char('2'));
    send(&mut window, KeyCode::Char('h'));
    send(&mut window, KeyCode::Left);
    send(&mut window, KeyCode::Char('t'));
    // Cells (3, 3), (4, 3) and (5, 3): a blinker.
    assert_eq!(live_count(&window), 3);
    send(&mut window, KeyCode::Char('s'));
    assert_eq!(window.life().get_cell(4, 2), LifeCell::Alive);
    assert_eq!(window.life().get_cell(4, 4), LifeCell::Alive);
    let mut tick = AppEvent::new(AppEventType::Tick);
    assert_eq!(window.handle_app_event(&mut tick), vec![]);
    assert!(tick.propagate);
    assert_eq!(window.life().get_cell(3, 3), LifeCell::Alive);
    assert_eq!(window.life().get_cell(5, 3), LifeCell::Alive);
    assert_eq!(live_count(&window), 3);
}

#[test]
fn release_events_are_ignored() {
    let mut window = cleared_window();
    let mut event = AppEvent::new(AppEventType::Event(Event::Key(KeyEvent {
        code: KeyCode::Char('q'),
        kind: KeyEventKind::Release,
    })));
    assert_eq!(window.handle_app_event(&mut event), vec![]);
    assert_eq!(window.cursor(), (5, 4));
}

#[test]
fn resize_event_fits_grid_inside_border() {
    let mut window = cleared_window();
    let mut event = AppEvent::new(AppEventType::Event(Event::Resize(40, 12)));
    assert_eq!(window.handle_app_event(&mut event), vec![]);
    assert_eq!((window.life().get_width(), window.life().get_height()), (38, 10));
    let mut tick = AppEvent::new(AppEventType::Tick);
    window.handle_app_event(&mut tick);
    assert_eq!((window.life().get_width(), window.life().get_height()), (38, 10));
}

#[test]
fn help_window_swallows_key_presses() {
    let mut help = HelpWindow::new();
    let mut event = press(KeyCode::Char('j'));
    assert_eq!(help.handle_app_event(&mut event), vec![AppCommand::CloseWindow]);
    assert!(!event.propagate);
    let mut tick = AppEvent::new(AppEventType::Tick);
    assert_eq!(help.handle_app_event(&mut tick), vec![]);
    assert!(tick.propagate);
    let drawn = help.draw().unwrap();
    assert!(!drawn.cursor_visible);
}

#[test]
fn draw_results() {
    let shown = WindowDrawResult::cursor_position(3, 9);
    assert_eq!((shown.cursor_x, shown.cursor_y, shown.cursor_visible), (3, 9, true));
    let hidden = WindowDrawResult::cursor_hide();
    assert_eq!((hidden.cursor_x, hidden.cursor_y, hidden.cursor_visible), (0, 0, false));
    assert_eq!(WindowDrawResult::default(), hidden);
}

#[test]
fn clamp_to_rect_bounds() {
    let rect = Rect { x: 2, y: 3, width: 4, height: 5 };
    assert_eq!(clamp_to_rect(0, 0, rect), (2, 3));
    assert_eq!(clamp_to_rect(100, 100, rect), (5, 7));
    assert_eq!(clamp_to_rect(4, 4, rect), (4, 4));
    let edge = Rect { x: 65530, y: 0, width: 100, height: 0 };
    assert_eq!(clamp_to_rect(65535, 9, edge), (65535, 0));
}

#[test]
fn widgets_map_screen_to_grid() {
    let mut window = cleared_window();
    send(&mut window, KeyCode::Char('t'));
    let widget = LifeWidget::new();
    let inner = Rect { x: 1, y: 1, width: 8, height: 6 };
    assert_eq!(widget.cell_at(window.life(), inner, 5, 4), LifeCell::Alive);
    assert_eq!(widget.cell_at(window.life(), inner, 4, 4), LifeCell::Dead);
    assert_eq!(widget.cell_at(window.life(), inner, 0, 0), LifeCell::Dead);
    let mut state = LifeWidgetState { cursor_x: 0, cursor_y: 50 };
    state.clamp_into(inner);
    assert_eq!((state.cursor_x, state.cursor_y), (1, 6));
    let help = HelpWidget::new();
    let lines = help.lines();
    assert_eq!(lines.len(), 12);
    assert_eq!(lines[11], "q: Quit");
}

#[test]
fn count_then_any_direction_draws_line() {
    for code in [KeyCode::Char('j'), KeyCode::Up, KeyCode::Char('l'), KeyCode::Char('n')] {
        let mut window = cleared_window();
        send(&mut window, KeyCode::Char('2'));
        send(&mut window, code);
        assert_eq!(window.cursor(), (5, 4));
        assert_eq!(live_count(&window), 2);
        assert_eq!(window.life().get_cell(4, 3), LifeCell::Alive);
        assert_eq!(window.life().get_cell(5, 3), LifeCell::Alive);
    }
}

fn through_trait<W: Window>(window: &mut W, area: Rect, event: &mut AppEvent) -> (Option<WindowDrawResult>, Vec<AppCommand>) {
    window.init(area.width, area.height);
    let commands = window.handle_app_event(event);
    (window.draw(area), commands)
}

#[test]
fn windows_work_through_trait() {
    let area = Rect { x: 0, y: 0, width: 12, height: 6 };
    let mut life = LifeWindow::with_seed(3);
    let (drawn, commands) = through_trait(&mut life, area, &mut press(KeyCode::Char('r')));
    assert_eq!(commands, vec![AppCommand::TimerStart(RUN_INTERVAL_MS)]);
    assert_eq!(drawn, Some(WindowDrawResult::cursor_position(6, 3)));
    assert_eq!((life.life().get_width(), life.life().get_height()), (10, 4));
    let mut help = HelpWindow::new();
    let mut event = press(KeyCode::Char('r'));
    let (drawn, commands) = through_trait(&mut help, area, &mut event);
    assert_eq!(commands, vec![AppCommand::CloseWindow]);
    assert!(!event.propagate);
    assert_eq!(drawn, Some(WindowDrawResult::cursor_hide()));
}

#[test]
fn help_text_lists_keys() {
    let lines = HelpWidget::new().lines();
    let expected = vec![
        "y k u",
        " \\|/",
        "h-+-l  Cursor movement",
        " /|\\",
        "b j n  (or arrow keys)",
        "",
        "t: Toggle cell",
        "s: Step",
        "r: Run start/stop",
        "c: Clear screen",
        "R: Randomize",
        "q: Quit",
    ];
    assert_eq!(lines, expected);
}
