//! Key and mouse input as plain values.
//!
//! The surrounding terminal layer decodes its raw events into these types
//! and hands them to the store as actions; everything here is a plain
//! value, so the translation rules on them are verified.

use vstd::prelude::*;

use crate::app::Rect;

verus! {

/// A mouse button.
#[derive(PartialEq, Eq, Clone, Copy, Hash, Debug, Structural)]
pub enum Mouse {
    Left,
    Right,
    Middle,
}

/// A key, or a decoded mouse gesture.
#[derive(PartialEq, Eq, Clone, Copy, Hash, Debug, Structural)]
pub enum Key {
    /// Both Enter (or Return) and numpad Enter
    Enter,
    /// Tabulation key
    Tab,
    /// Backspace key
    Backspace,
    /// Escape key
    Esc,
    /// Left arrow
    Left,
    /// Right arrow
    Right,
    /// Up arrow
    Up,
    /// Down arrow
    Down,
    /// Insert key
    Ins,
    /// Delete key
    Delete,
    /// Home key
    Home,
    /// End key
    End,
    /// Page Up key
    PageUp,
    /// Page Down key
    PageDown,
    F0,
    F1,
    F2,
    F3,
    F4,
    F5,
    F6,
    F7,
    F8,
    F9,
    F10,
    F11,
    F12,
    /// Char key. Contains the char the event occurred on.
    Char(char),
    /// Moved the mouse cursor while not pressing a mouse button.  Contains
    /// the column and row the event occurred on.
    MouseMove(u16, u16),
    /// Scrolled the mouse wheel.  Contains the direction and the column
    /// and row the event occurred on.
    MouseScroll(i32, u16, u16),
    /// Pressed a mouse button.  Contains the button, column and row.
    MouseDown(Mouse, u16, u16),
    /// Released a mouse button.  Contains the button, column and row.
    MouseUp(Mouse, u16, u16),
    /// Moved the mouse cursor while pressing a button.  Contains the
    /// button, column and row.
    MouseDrag(Mouse, u16, u16),
    MouseClick(Mouse, u16, u16),
    Unknown,
}

/// A key together with the modifier it was pressed under.
#[derive(PartialEq, Eq, Clone, Copy, Hash, Debug, Structural)]
pub enum Mod {
    Ctrl(Key),
    Alt(Key),
    Shift(Key),
    Any(Key),
    Clean(Key),
}

/// The function key a number stands for.
pub open spec fn spec_from_f(n: u8) -> Key {
    if n == 0 {
        Key::F0
    } else if n == 1 {
        Key::F1
    } else if n == 2 {
        Key::F2
    } else if n == 3 {
        Key::F3
    } else if n == 4 {
        Key::F4
    } else if n == 5 {
        Key::F5
    } else if n == 6 {
        Key::F6
    } else if n == 7 {
        Key::F7
    } else if n == 8 {
        Key::F8
    } else if n == 9 {
        Key::F9
    } else if n == 10 {
        Key::F10
    } else if n == 11 {
        Key::F11
    } else {
        Key::F12
    }
}

impl Key {
    /// Returns the function key corresponding to the given number:
    /// 1 stands for F1, and so on.
    pub fn from_f(n: u8) -> (key: Key)
        requires
            n <= 12,
        ensures
            key == spec_from_f(n),
    {
        match n {
            0 => Key::F0,
            1 => Key::F1,
            2 => Key::F2,
            3 => Key::F3,
            4 => Key::F4,
            5 => Key::F5,
            6 => Key::F6,
            7 => Key::F7,
            8 => Key::F8,
            9 => Key::F9,
            10 => Key::F10,
            11 => Key::F11,
            _ => Key::F12,
        }
    }
}

/// An event of the terminal user interface.
pub enum UiEvent<I> {
    /// An input event occurred.
    Input(I),
    /// A tick event occurred.
    Tick,
    /// A resize event occurred.
    Resize(Rect),
}

/// The uppercase mapping of a character, as Unicode defines it.
pub uninterp spec fn upper_of(c: char) -> char;

/// The lowercase mapping of a character, as Unicode defines it.
pub uninterp spec fn lower_of(c: char) -> char;

/// Relies on char::to_uppercase: the first character of the uppercase
/// mapping, which depends on the character alone.
#[verifier::external_body]
fn uppercase_first(c: char) -> (r: char)
    ensures
        r == upper_of(c),
{
    c.to_uppercase().next().unwrap_or(c)
}

/// Relies on char::to_lowercase: the first character of the lowercase
/// mapping, which depends on the character alone.
#[verifier::external_body]
fn lowercase_first(c: char) -> (r: char)
    ensures
        r == lower_of(c),
{
    c.to_lowercase().next().unwrap_or(c)
}

/// The input events one decoded key or mouse event expands to: the
/// modified key itself; then, for a character key that is its own
/// uppercase mapping, the lowercase character as an extra any-modifier
/// event; then the bare key as an any-modifier event.
pub open spec fn spec_key_inputs(m: Mod, key: Key) -> Seq<Mod> {
    match key {
        Key::Char(c) => {
            if upper_of(c) == c {
                seq![m, Mod::Any(Key::Char(lower_of(c))), Mod::Any(key)]
            } else {
                seq![m, Mod::Any(key)]
            }
        },
        _ => seq![m, Mod::Any(key)],
    }
}

/// Expands one decoded key or mouse event into the list of input events
/// the store is to see, in order.
pub fn key_inputs(m: Mod, key: Key) -> (events: Vec<Mod>)
    ensures
        events@ == spec_key_inputs(m, key),
{
    let mut events: Vec<Mod> = Vec::new();
    events.push(m);
    match key {
        Key::Char(c) => {
            if uppercase_first(c) == c {
                events.push(Mod::Any(Key::Char(lowercase_first(c))));
            }
        },
        _ => {},
    }
    events.push(Mod::Any(key));
    proof {
        assert(events@ =~= spec_key_inputs(m, key));
    }
    events
}

} // verus!
