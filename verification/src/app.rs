//! The terminal client's application state, as plain values, with its
//! update rules.
//!
//! The state mirrors what the surrounding terminal layer reads and writes:
//! scrollable panes of styled text, the viewport size, the query line and
//! a handful of flags.  Colours, styled spans and the viewport rectangle
//! are held as plain values so that every update rule on them is verified;
//! the drawing itself stays with the terminal layer.

use vstd::prelude::*;

use crate::cond::Cond;
use crate::input::Key;
use crate::input::Mod;
use crate::input::Mouse;
use crate::store::Handler;

verus! {

/// A rectangle of the terminal viewport.
#[derive(PartialEq, Eq, Clone, Copy, Hash, Debug, Structural)]
pub struct Rect {
    pub x: u16,
    pub y: u16,
    pub width: u16,
    pub height: u16,
}

impl Default for Rect {
    /// The empty rectangle at the origin.
    fn default() -> (r: Rect)
        ensures
            r == (Rect { x: 0u16, y: 0u16, width: 0u16, height: 0u16 }),
    {
        Rect { x: 0, y: 0, width: 0, height: 0 }
    }
}

/// A 24-bit colour with an alpha channel, as the highlighter hands it out.
#[derive(PartialEq, Eq, Clone, Copy, Hash, Debug, Structural)]
pub struct Color {
    pub r: u8,
    pub g: u8,
    pub b: u8,
    pub a: u8,
}

/// The style of one highlighted span of text.
#[derive(PartialEq, Eq, Clone, Copy, Hash, Debug, Structural)]
pub struct TextStyle {
    pub foreground: Color,
    pub background: Color,
}

/// A scroll position of a pane: row, then column.
#[derive(PartialEq, Eq, Clone, Copy, Hash, Debug, Structural)]
pub struct ScrollPos {
    pub row: u16,
    pub col: u16,
}

/// A position on the terminal grid: column, then row.
#[derive(PartialEq, Eq, Clone, Copy, Hash, Debug, Structural)]
pub struct Pos {
    pub x: u16,
    pub y: u16,
}

/// The format of a data pane's content.
#[derive(PartialEq, Eq, Clone, Copy, Hash, Debug, Structural)]
#[allow(clippy::upper_case_acronyms)]
pub enum DataFmt {
    JSON,
    YAML,
    XML,
    CSV,
    SCHEMA,
}

impl Default for DataFmt {
    fn default() -> (fmt: DataFmt)
        ensures
            fmt == DataFmt::JSON,
    {
        DataFmt::JSON
    }
}

/// One scrollable pane of data: the raw lines, the highlighted lines as
/// styled spans, the scroll position as (row, column), and the flags that
/// say which parts have been loaded.
#[derive(Clone, Debug)]
pub struct Data {
    pub format: DataFmt,
    pub original_lines: Vec<String>,
    pub formatted_lines: Vec<Vec<(TextStyle, String)>>,
    pub scroll: ScrollPos,
    pub original_loaded: bool,
    pub values_loaded: bool,
    pub formatted_loaded: bool,
}

/// Whether a pane is empty, unscrolled and unloaded, under the given
/// format.
pub open spec fn data_is_empty(d: Data, fmt: DataFmt) -> bool {
    &&& d.format == fmt
    &&& d.original_lines@ == Seq::<String>::empty()
    &&& d.formatted_lines@ == Seq::<Vec<(TextStyle, String)>>::empty()
    &&& d.scroll == (ScrollPos { row: 0u16, col: 0u16 })
    &&& !d.original_loaded
    &&& !d.values_loaded
    &&& !d.formatted_loaded
}

impl Data {
    /// An empty, unscrolled, unloaded pane under the given format.
    pub fn empty(format: DataFmt) -> (d: Data)
        ensures
            data_is_empty(d, format),
    {
        Data {
            format,
            original_lines: Vec::new(),
            formatted_lines: Vec::new(),
            scroll: ScrollPos { row: 0, col: 0 },
            original_loaded: false,
            values_loaded: false,
            formatted_loaded: false,
        }
    }
}

impl Default for Data {
    /// An empty pane in the default format.
    fn default() -> (d: Data)
        ensures
            data_is_empty(d, DataFmt::JSON),
    {
        Data::empty(DataFmt::JSON)
    }
}

/// Pacing options of the interface, in milliseconds.
#[derive(PartialEq, Eq, Clone, Copy, Hash, Debug, Structural)]
pub struct Options {
    /// Time between two ticks.
    pub tick_rate: u64,
    /// Least time between two rendered frames.
    pub frame_rate: u64,
}

impl Default for Options {
    fn default() -> (o: Options)
        ensures
            o == (Options { tick_rate: 0u64, frame_rate: 0u64 }),
    {
        Options { tick_rate: 0, frame_rate: 0 }
    }
}

/// The application state of the terminal client.
#[derive(Clone, Debug)]
pub struct App {
    pub options: Options,
    pub inp_data: Data,
    pub out_data: Data,
    pub schema_data: Data,
    pub size: Rect,
    pub help_menu_max_lines: u32,
    pub input_cursor_position: u16,
    pub jq_input: String,
    pub mouse_pos: Pos,
    pub need_render: bool,
    pub running: bool,
    pub pause: bool,
    pub changed: bool,
}

impl Default for App {
    /// The initial application state: empty panes (the schema pane under
    /// the schema format), a 160 ms tick, a 33 ms frame floor, the
    /// identity query, and the client marked running and changed.
    fn default() -> (app: App)
        ensures
            app.options == (Options { tick_rate: 160u64, frame_rate: 33u64 }),
            data_is_empty(app.inp_data, DataFmt::JSON),
            data_is_empty(app.out_data, DataFmt::JSON),
            data_is_empty(app.schema_data, DataFmt::SCHEMA),
            app.size == (Rect { x: 0u16, y: 0u16, width: 0u16, height: 0u16 }),
            app.help_menu_max_lines == 10u32,
            app.input_cursor_position == 0u16,
            app.jq_input@ == "."@,
            app.mouse_pos == (Pos { x: 0u16, y: 0u16 }),
            !app.need_render,
            app.running,
            !app.pause,
            app.changed,
    {
        App {
            options: Options { tick_rate: 160, frame_rate: 33 },
            inp_data: Data::empty(DataFmt::JSON),
            out_data: Data::empty(DataFmt::JSON),
            schema_data: Data::empty(DataFmt::SCHEMA),
            size: Rect::default(),
            help_menu_max_lines: 10,
            input_cursor_position: 0,
            jq_input: ".".to_owned(),
            mouse_pos: Pos { x: 0, y: 0 },
            need_render: false,
            running: true,
            pause: false,
            changed: true,
        }
    }
}

/// `v` clamped into the range from zero to `hi`.
pub open spec fn spec_clamp(v: int, hi: int) -> int {
    if v < 0 {
        0
    } else if v > hi {
        hi
    } else {
        v
    }
}

/// The last scrollable row of the input pane, capped into the range a
/// scroll position can hold.
pub open spec fn row_cap(app: App) -> int {
    if app.inp_data.formatted_lines@.len() > 65535 {
        65535
    } else {
        app.inp_data.formatted_lines@.len() as int
    }
}

/// `v` clamped into the range from zero to `hi`.
fn clamp_row(v: i64, hi: u16) -> (r: u16)
    ensures
        r as int == spec_clamp(v as int, hi as int),
{
    if v < 0 {
        0
    } else if v > hi as i64 {
        hi
    } else {
        v as u16
    }
}

/// The state after the input pane took one input event: wheel and arrow
/// movements scroll the pane within its row range, the middle button and
/// the `g`/`G` keys jump, the mouse position is tracked, and Ctrl+q stops
/// the client.  Scroll positions are clamped into their range instead of
/// wrapping.
pub open spec fn input_step(app: App, evt: Mod) -> App {
    match evt {
        Mod::Ctrl(Key::Char(c)) => {
            if c == 'q' {
                App { running: false, ..app }
            } else {
                app
            }
        },
        Mod::Clean(Key::MouseScroll(pos, _x, _y)) => spec_set_row(
            app,
            spec_clamp(app.inp_data.scroll.row + pos, row_cap(app)),
        ),
        Mod::Shift(Key::MouseScroll(pos, _x, _y)) => spec_set_col(
            app,
            spec_clamp(app.inp_data.scroll.col + pos, 65535),
        ),
        Mod::Clean(Key::MouseDown(Mouse::Middle, _x, _y)) => spec_set_row(app, 0),
        Mod::Shift(Key::MouseDown(Mouse::Middle, _x, _y)) => spec_set_col(app, 0),
        Mod::Clean(Key::Down) => spec_set_row(
            app,
            spec_clamp(app.inp_data.scroll.row + 1, row_cap(app)),
        ),
        Mod::Clean(Key::Up) => spec_set_row(app, spec_clamp(app.inp_data.scroll.row - 1, 65535)),
        Mod::Shift(Key::Down) => spec_set_row(
            app,
            spec_clamp(app.inp_data.scroll.row + 10, row_cap(app)),
        ),
        Mod::Shift(Key::Up) => spec_set_row(app, spec_clamp(app.inp_data.scroll.row - 10, 65535)),
        Mod::Any(Key::Char(c)) => {
            if c == 'g' {
                spec_set_row(app, 0)
            } else if c == 'G' {
                spec_set_row(app, spec_clamp(row_cap(app) - app.size.height + 2, 65535))
            } else {
                app
            }
        },
        Mod::Any(Key::MouseMove(x, y)) => (App { mouse_pos: Pos { x: x, y: y }, need_render: true, ..app }),
        _ => app,
    }
}

/// `app` with the input pane scrolled to row `v`.
pub open spec fn spec_set_row(app: App, v: int) -> App {
    App {
        inp_data: Data {
            scroll: ScrollPos { row: v as u16, col: app.inp_data.scroll.col },
            ..app.inp_data
        },
        ..app
    }
}

/// `app` with the input pane scrolled to column `v`.
pub open spec fn spec_set_col(app: App, v: int) -> App {
    App {
        inp_data: Data {
            scroll: ScrollPos { row: app.inp_data.scroll.row, col: v as u16 },
            ..app.inp_data
        },
        ..app
    }
}

/// The state after the input pane took a list of input events, in order.
pub open spec fn input_fold(app: App, events: Seq<Mod>) -> App
    decreases events.len(),
{
    if events.len() == 0 {
        app
    } else {
        input_fold(input_step(app, events[0]), events.drop_first())
    }
}

/// Taking the events one after the other is taking them all: folding a
/// list extended by one event is one more step on the folded list.
pub proof fn lemma_input_fold_push(app: App, events: Seq<Mod>, evt: Mod)
    ensures
        input_fold(app, events.push(evt)) == input_step(input_fold(app, events), evt),
    decreases events.len(),
{
    if events.len() == 0 {
        assert(events.push(evt)[0] == evt);
        assert(events.push(evt).drop_first() =~= events);
        assert(input_fold(app, events.push(evt)) == input_fold(input_step(app, evt), events));
        assert(input_fold(input_step(app, evt), events) == input_step(app, evt));
        assert(input_fold(app, events) == app);
    } else {
        assert(events.push(evt)[0] == events[0]);
        assert(events.push(evt).drop_first() =~= events.drop_first().push(evt));
        lemma_input_fold_push(input_step(app, events[0]), events.drop_first(), evt);
    }
}

/// The state after a resize: the viewport is the new size, and the help
/// menu gets the lines beyond a fixed header budget of eight.
pub open spec fn spec_on_resize(app: App, size: Rect) -> App {
    App {
        size: size,
        help_menu_max_lines: if size.height > 8 {
            (size.height - 8) as u32
        } else {
            0u32
        },
        ..app
    }
}

impl App {
    /// Applies one resize event.
    pub fn on_resize(&mut self, size: Rect)
        ensures
            *final(self) == spec_on_resize(*old(self), size),
    {
        self.size = size;
        if size.height > 8 {
            self.help_menu_max_lines = (size.height - 8) as u32;
        } else {
            self.help_menu_max_lines = 0;
        }
    }

    /// Applies a list of input events to the input pane, in order.
    pub fn on_input(&mut self, events: &Vec<Mod>)
        ensures
            *final(self) == input_fold(*old(self), events@),
    {
        let mut i: usize = 0;
        proof {
            assert(events@.take(0) =~= Seq::<Mod>::empty());
        }
        while i < events.len()
            invariant
                i <= events.len(),
                *self == input_fold(*old(self), events@.take(i as int)),
            decreases events.len() - i,
        {
            let evt = events[i];
            self.input_event(evt);
            proof {
                assert(events@.take(i as int).push(evt) =~= events@.take(i as int + 1));
                lemma_input_fold_push(*old(self), events@.take(i as int), evt);
            }
            i = i + 1;
        }
        proof {
            assert(events@.take(events@.len() as int) =~= events@);
        }
    }

    /// Applies one input event to the input pane.
    fn input_event(&mut self, evt: Mod)
        ensures
            *final(self) == input_step(*old(self), evt),
    {
        let len = self.inp_data.formatted_lines.len();
        let cap: u16 = if len > 65535 {
            65535
        } else {
            len as u16
        };
        proof {
            assert(cap as int == row_cap(*self));
        }
        match evt {
            Mod::Ctrl(Key::Char(c)) => {
                if c == 'q' {
                    self.running = false;
                }
            },
            Mod::Clean(Key::MouseScroll(pos, _x, _y)) => {
                self.inp_data.scroll.row = clamp_row(
                    self.inp_data.scroll.row as i64 + pos as i64,
                    cap,
                );
            },
            Mod::Shift(Key::MouseScroll(pos, _x, _y)) => {
                self.inp_data.scroll.col = clamp_row(
                    self.inp_data.scroll.col as i64 + pos as i64,
                    65535,
                );
            },
            Mod::Clean(Key::MouseDown(Mouse::Middle, _x, _y)) => {
                self.inp_data.scroll.row = 0;
            },
            Mod::Shift(Key::MouseDown(Mouse::Middle, _x, _y)) => {
                self.inp_data.scroll.col = 0;
            },
            Mod::Clean(Key::Down) => {
                self.inp_data.scroll.row = clamp_row(self.inp_data.scroll.row as i64 + 1, cap);
            },
            Mod::Clean(Key::Up) => {
                self.inp_data.scroll.row = clamp_row(self.inp_data.scroll.row as i64 - 1, 65535);
            },
            Mod::Shift(Key::Down) => {
                self.inp_data.scroll.row = clamp_row(self.inp_data.scroll.row as i64 + 10, cap);
            },
            Mod::Shift(Key::Up) => {
                self.inp_data.scroll.row = clamp_row(self.inp_data.scroll.row as i64 - 10, 65535);
            },
            Mod::Any(Key::Char(c)) => {
                if c == 'g' {
                    self.inp_data.scroll.row = 0;
                } else if c == 'G' {
                    self.inp_data.scroll.row = clamp_row(
                        cap as i64 - self.size.height as i64 + 2,
                        65535,
                    );
                }
            },
            Mod::Any(Key::MouseMove(x, y)) => {
                self.mouse_pos = Pos { x: x, y: y };
                self.need_render = true;
            },
            _ => {},
        }
    }

    /// Applies one tick event; the client takes no periodic work.
    pub fn on_tick(&mut self)
        ensures
            *final(self) == *old(self),
    {
    }
}

/// The canonical handler of the terminal client: input events update the
/// input pane and the tracked mouse position, a resize updates the
/// viewport and asks for a frame, and a completed render clears the
/// request.  It never produces follow-up actions.
pub struct AppHandler;

/// An action of the terminal client.
#[derive(PartialEq, Clone, Debug)]
pub enum AppAction {
    /// An input event occurred.
    Interaction(Vec<Mod>),
    /// A resize event occurred.
    Resize(Rect),
    /// A tick event occurred.
    Tick,
    /// A frame was rendered.
    Rendered,
    /// The client is asked to exit.
    Exit,
}

impl Handler<App, AppAction> for AppHandler {
    open spec fn next_state(&self, s: App, a: AppAction) -> App {
        match a {
            AppAction::Interaction(events) => input_fold(s, events@),
            AppAction::Resize(r) => (App { need_render: true, ..spec_on_resize(s, r) }),
            AppAction::Tick => s,
            AppAction::Rendered => (App { need_render: false, ..s }),
            AppAction::Exit => s,
        }
    }

    open spec fn follow_ups(&self, s: App, a: AppAction) -> Seq<AppAction> {
        Seq::empty()
    }

    fn handle(&self, state: &mut App, action: &AppAction) -> (out: Option<Vec<AppAction>>) {
        match action {
            AppAction::Interaction(events) => {
                state.on_input(events);
            },
            AppAction::Resize(r) => {
                state.on_resize(*r);
                state.need_render = true;
            },
            AppAction::Tick => {
                state.on_tick();
            },
            AppAction::Rendered => {
                state.need_render = false;
            },
            AppAction::Exit => {},
        }
        None
    }
}

/// The condition the render reaction watches: the need-render flag
/// becoming true.
pub fn need_render_cond(app: &App) -> (c: Cond)
    ensures
        c == Cond::spec_becomes_true(app.need_render),
{
    Cond::becomes_true(app.need_render)
}

/// The condition the shutdown reaction watches: the running flag becoming
/// false.
pub fn stopped_cond(app: &App) -> (c: Cond)
    ensures
        c == Cond::spec_becomes_false(app.running),
{
    Cond::becomes_false(app.running)
}

} // verus!
