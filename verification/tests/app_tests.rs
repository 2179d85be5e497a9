use qurl_core::App;
use qurl_core::AppAction;
use qurl_core::AppHandler;
use qurl_core::Cond;
use qurl_core::Key;
use qurl_core::Mod;
use qurl_core::Mouse;
use qurl_core::Reaction;
use qurl_core::Store;
use qurl_core::app::DataFmt;
use qurl_core::app::Pos;
use qurl_core::app::Rect;
use qurl_core::app::ScrollPos;
use qurl_core::app::TextStyle;
use qurl_core::app::Color;
use qurl_core::app::need_render_cond;
use qurl_core::app::stopped_cond;

fn app_with_rows(rows: usize) -> App {
    let mut app = App::default();
    let style = TextStyle {
        foreground: Color { r: 255, g: 255, b: 255, a: 255 },
        background: Color { r: 0, g: 0, b: 0, a: 255 },
    };
    for i in 0..rows {
        app.inp_data
            .formatted_lines
            .push(vec![(style, format!("line {}", i))]);
    }
    app
}

#[test]
fn default_app_state() {
    let app = App::default();
    assert_eq!(app.jq_input, ".");
    assert_eq!(app.options.tick_rate, 160);
    assert_eq!(app.options.frame_rate, 33);
    assert_eq!(app.inp_data.format, DataFmt::JSON);
    assert_eq!(app.schema_data.format, DataFmt::SCHEMA);
    assert_eq!(app.help_menu_max_lines, 10);
    assert_eq!(app.size, Rect::default());
    assert_eq!(app.mouse_pos, Pos { x: 0, y: 0 });
    assert!(app.running);
    assert!(app.changed);
    assert!(!app.pause);
    assert!(!app.need_render);
    assert!(app.inp_data.formatted_lines.is_empty());
    assert!(!app.inp_data.formatted_loaded);
}

#[test]
fn resize_updates_viewport_and_help_menu() {
    let mut app = App::default();
    app.on_resize(Rect { x: 0, y: 0, width: 80, height: 30 });
    assert_eq!(app.size.height, 30);
    assert_eq!(app.help_menu_max_lines, 22);

    app.on_resize(Rect { x: 0, y: 0, width: 80, height: 8 });
    assert_eq!(app.help_menu_max_lines, 0);
}

#[test]
fn scroll_arrows_clamp_to_the_row_range() {
    let mut app = app_with_rows(5);
    app.on_input(&vec![Mod::Clean(Key::Down); 9]);
    assert_eq!(app.inp_data.scroll, ScrollPos { row: 5, col: 0 });
    app.on_input(&vec![Mod::Clean(Key::Up); 9]);
    assert_eq!(app.inp_data.scroll, ScrollPos { row: 0, col: 0 });
    app.on_input(&vec![Mod::Clean(Key::Up)]);
    assert_eq!(app.inp_data.scroll.row, 0);
}

#[test]
fn shift_arrows_scroll_by_ten() {
    let mut app = app_with_rows(25);
    app.on_input(&vec![Mod::Shift(Key::Down), Mod::Shift(Key::Down)]);
    assert_eq!(app.inp_data.scroll.row, 20);
    app.on_input(&vec![Mod::Shift(Key::Up)]);
    assert_eq!(app.inp_data.scroll.row, 10);
}

#[test]
fn mouse_wheel_scrolls_rows_and_columns() {
    let mut app = app_with_rows(10);
    app.on_input(&vec![
        Mod::Clean(Key::MouseScroll(3, 1, 1)),
        Mod::Shift(Key::MouseScroll(4, 1, 1)),
    ]);
    assert_eq!(app.inp_data.scroll, ScrollPos { row: 3, col: 4 });
    app.on_input(&vec![
        Mod::Clean(Key::MouseDown(Mouse::Middle, 1, 1)),
        Mod::Shift(Key::MouseDown(Mouse::Middle, 1, 1)),
    ]);
    assert_eq!(app.inp_data.scroll, ScrollPos { row: 0, col: 0 });
}

#[test]
fn jump_keys_go_to_top_and_near_bottom() {
    let mut app = app_with_rows(30);
    app.size.height = 10;
    app.on_input(&vec![Mod::Any(Key::Char('G'))]);
    assert_eq!(app.inp_data.scroll.row, 22);
    app.on_input(&vec![Mod::Any(Key::Char('g'))]);
    assert_eq!(app.inp_data.scroll.row, 0);
}

#[test]
fn ctrl_q_stops_the_client() {
    let mut app = App::default();
    app.on_input(&vec![Mod::Ctrl(Key::Char('q'))]);
    assert!(!app.running);
}

#[test]
fn mouse_move_tracks_position_and_asks_for_a_frame() {
    let mut app = App::default();
    app.on_input(&vec![Mod::Any(Key::MouseMove(7, 9))]);
    assert_eq!(app.mouse_pos, Pos { x: 7, y: 9 });
    assert!(app.need_render);
}

#[test]
fn tick_changes_nothing() {
    let mut app = app_with_rows(3);
    let scroll = app.inp_data.scroll;
    app.on_tick();
    assert_eq!(app.inp_data.scroll, scroll);
}

/// Renders when the need-render flag becomes true, reporting completion.
struct RenderReaction;

impl Reaction<App, AppAction> for RenderReaction {
    fn cond(&self, state: &App) -> Cond {
        need_render_cond(state)
    }

    fn effect(&self, _state: &App) -> Option<Vec<AppAction>> {
        Some(vec![AppAction::Rendered])
    }
}

#[test]
fn resize_renders_once_and_settles() {
    let mut store: Store<App, AppAction, AppHandler, RenderReaction> =
        Store::new(App::default());
    store.handler(AppHandler);
    store.reaction(RenderReaction);

    let pending = store.dispatch(
        AppAction::Resize(Rect { x: 0, y: 0, width: 80, height: 24 }),
        4,
    );
    assert!(pending.is_empty());
    let state = store.state.read();
    assert_eq!(state.size.width, 80);
    assert_eq!(state.help_menu_max_lines, 16);
    // The render fired once and the completion action cleared the flag.
    assert!(!state.need_render);
}

#[test]
fn rendered_without_a_request_does_not_render_again() {
    let mut store: Store<App, AppAction, AppHandler, RenderReaction> =
        Store::new(App::default());
    store.handler(AppHandler);
    store.reaction(RenderReaction);
    let f = store.dispatch_cycle(&AppAction::Rendered);
    assert!(f.is_empty());
}

#[test]
fn stopped_cond_watches_the_running_flag() {
    let mut app = App::default();
    assert_eq!(stopped_cond(&app), Cond::becomes_false(true));
    app.running = false;
    assert_eq!(stopped_cond(&app), Cond::becomes_false(false));
    assert!(qurl_core::cond::fires(
        &Cond::becomes_false(true),
        &Cond::becomes_false(false),
    ));
}

#[test]
fn default_building_blocks() {
    let d = qurl_core::app::Data::default();
    assert_eq!(d.format, DataFmt::JSON);
    assert_eq!(d.scroll, ScrollPos { row: 0, col: 0 });
    assert!(d.original_lines.is_empty());
    let o = qurl_core::app::Options::default();
    assert_eq!(o.tick_rate, 0);
    assert_eq!(o.frame_rate, 0);
    assert_eq!(Rect::default(), Rect { x: 0, y: 0, width: 0, height: 0 });
    assert_eq!(DataFmt::default(), DataFmt::JSON);
}

#[test]
fn default_store_starts_empty() {
    let mut store: Store<App, AppAction, AppHandler, RenderReaction> = Store::default();
    // With nothing registered a dispatch runs an empty cycle.
    let f = store.dispatch_cycle(&AppAction::Tick);
    assert!(f.is_empty());
}
