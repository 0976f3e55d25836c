use conway_tui::app::App;
use conway_tui::event::{AppCommand, AppEventType, Event, KeyCode, KeyEvent, KeyEventKind};
use conway_tui::geometry::Rect;
use conway_tui::life::LifeCell;
use conway_tui::life_window::LifeWindow;

fn key(code: KeyCode) -> AppEventType {
    AppEventType::Event(Event::Key(KeyEvent { code, kind: KeyEventKind::Press }))
}

fn cleared_app() -> App {
    let mut app = App::with_window(LifeWindow::with_seed(5));
    app.init(10, 8);
    app.handle_event(key(KeyCode::Char('c')), 0);
    app
}

fn grid_snapshot(app: &App) -> Vec<Vec<LifeCell>> {
    app.life_window().life().get_cells().clone()
}

#[test]
fn new_app_is_idle() {
    let app = App::new();
    let state = app.state();
    assert!(!state.help_active);
    assert!(!state.quit);
    assert_eq!(state.next_tick, None);
    assert_eq!(app.timeout(100), None);
    assert_eq!(app.life_window().cursor(), (0, 0));
    assert!(!app.life_window().is_running());
}

#[test]
fn app_init_sizes_grid_and_draw_clamps_cursor() {
    let mut app = App::new();
    app.init(30, 20);
    assert_eq!(app.life_window().life().get_width(), 28);
    assert_eq!(app.life_window().life().get_height(), 18);
    assert_eq!(app.life_window().cursor(), (15, 10));
    let drawn = app.draw(Rect { x: 10, y: 5, width: 30, height: 20 }).unwrap();
    assert_eq!((drawn.cursor_x, drawn.cursor_y, drawn.cursor_visible), (15, 10, true));
    let drawn = app.draw(Rect { x: 20, y: 15, width: 5, height: 4 }).unwrap();
    assert_eq!((drawn.cursor_x, drawn.cursor_y), (21, 16));
}

#[test]
fn help_then_key_closes_without_touching_grid() {
    let mut app = cleared_app();
    app.handle_event(key(KeyCode::Char('t')), 1);
    let cursor = app.life_window().cursor();
    let grid = grid_snapshot(&app);
    assert_eq!(app.handle_event(key(KeyCode::Char('?')), 2), vec![AppCommand::HelpPopup]);
    assert!(app.state().help_active);
    let drawn = app.draw(Rect { x: 0, y: 0, width: 10, height: 8 }).unwrap();
    assert!(!drawn.cursor_visible);
    assert_eq!(app.handle_event(key(KeyCode::Char('j')), 4), vec![AppCommand::CloseWindow]);
    assert!(!app.state().help_active);
    assert!(!app.state().quit);
    assert_eq!(app.life_window().cursor(), cursor);
    assert_eq!(grid_snapshot(&app), grid);
    let drawn = app.draw(Rect { x: 0, y: 0, width: 10, height: 8 }).unwrap();
    assert!(drawn.cursor_visible);
}

#[test]
fn quit_key_under_help_only_closes_help() {
    let mut app = cleared_app();
    app.handle_event(key(KeyCode::Char('?')), 0);
    app.handle_event(key(KeyCode::Char('q')), 1);
    assert!(!app.state().help_active);
    assert!(!app.state().quit);
    app.handle_event(key(KeyCode::Char('q')), 2);
    assert!(app.state().quit);
}

#[test]
fn timer_schedules_ticks() {
    let mut app = cleared_app();
    assert_eq!(app.handle_event(key(KeyCode::Char('r')), 1000), vec![AppCommand::TimerStart(20)]);
    assert_eq!(app.state().interval_ms, 20);
    assert_eq!(app.state().next_tick, Some(1000));
    assert_eq!(app.timeout(1005), Some(0));
    assert_eq!(app.timeout(990), Some(10));
    app.handle_event(AppEventType::Tick, 1001);
    assert_eq!(app.state().next_tick, Some(1021));
    assert_eq!(app.timeout(1011), Some(10));
    assert_eq!(app.handle_event(key(KeyCode::Char('r')), 1015), vec![AppCommand::TimerStop]);
    assert_eq!(app.state().next_tick, None);
    assert_eq!(app.timeout(2000), None);
}

#[test]
fn manual_step_stops_timer() {
    let mut app = cleared_app();
    app.handle_event(key(KeyCode::Char('r')), 0);
    assert_eq!(app.handle_event(key(KeyCode::Char('s')), 5), vec![AppCommand::TimerStop]);
    assert_eq!(app.state().next_tick, None);
    assert!(!app.life_window().is_running());
}

#[test]
fn tick_advances_grid_once() {
    let mut app = cleared_app();
    app.handle_event(key(KeyCode::Char('t')), 0);
    assert_eq!(app.life_window().life().get_cell(4, 3), LifeCell::Alive);
    app.handle_event(AppEventType::Tick, 1);
    assert_eq!(app.life_window().life().get_cell(4, 3), LifeCell::Dead);
}

#[test]
fn resize_event_reaches_grid() {
    let mut app = cleared_app();
    app.handle_event(AppEventType::Event(Event::Resize(20, 5)), 0);
    assert_eq!(app.life_window().life().get_width(), 18);
    assert_eq!(app.life_window().life().get_height(), 3);
    app.handle_event(AppEventType::Event(Event::Other), 1);
    assert_eq!(app.life_window().life().get_width(), 18);
}
