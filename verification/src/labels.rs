//! Readable labels for keys and modifiers.
//!
//! The terminal layer shows key bindings to the user; these methods build
//! the text for them.  Every label is pinned down, character for
//! character, by a spec function, including the decimal rendering of
//! mouse coordinates.  A character key's label carries the character
//! itself, between plain quotes where a name is called for.

use vstd::prelude::*;
use vstd::string::StringExecFns;

use crate::input::Key;
use crate::input::Mod;
use crate::input::Mouse;

verus! {

/// The character of one decimal digit.
pub open spec fn digit_char(d: nat) -> char {
    if d == 0 {
        '0'
    } else if d == 1 {
        '1'
    } else if d == 2 {
        '2'
    } else if d == 3 {
        '3'
    } else if d == 4 {
        '4'
    } else if d == 5 {
        '5'
    } else if d == 6 {
        '6'
    } else if d == 7 {
        '7'
    } else if d == 8 {
        '8'
    } else {
        '9'
    }
}

/// The decimal digits of `n`, most significant first.
pub open spec fn dec_digits(n: nat) -> Seq<char>
    decreases n,
{
    if n < 10 {
        seq![digit_char(n)]
    } else {
        dec_digits(n / 10).push(digit_char(n % 10))
    }
}

/// The decimal rendering of a possibly negative number.
pub open spec fn dec_int(v: int) -> Seq<char> {
    if v < 0 {
        seq!['-'] + dec_digits((0 - v) as nat)
    } else {
        dec_digits(v as nat)
    }
}

/// The name of a mouse button.
pub open spec fn mouse_name(m: Mouse) -> Seq<char> {
    match m {
        Mouse::Left => "Left"@,
        Mouse::Right => "Right"@,
        Mouse::Middle => "Middle"@,
    }
}

/// The plain rendering of a key: its name, with its payload between
/// parentheses where it carries one, the character between plain quotes.
pub open spec fn key_debug(k: Key) -> Seq<char> {
    match k {
        Key::Enter => "Enter"@,
        Key::Tab => "Tab"@,
        Key::Backspace => "Backspace"@,
        Key::Esc => "Esc"@,
        Key::Left => "Left"@,
        Key::Right => "Right"@,
        Key::Up => "Up"@,
        Key::Down => "Down"@,
        Key::Ins => "Ins"@,
        Key::Delete => "Delete"@,
        Key::Home => "Home"@,
        Key::End => "End"@,
        Key::PageUp => "PageUp"@,
        Key::PageDown => "PageDown"@,
        Key::F0 => "F0"@,
        Key::F1 => "F1"@,
        Key::F2 => "F2"@,
        Key::F3 => "F3"@,
        Key::F4 => "F4"@,
        Key::F5 => "F5"@,
        Key::F6 => "F6"@,
        Key::F7 => "F7"@,
        Key::F8 => "F8"@,
        Key::F9 => "F9"@,
        Key::F10 => "F10"@,
        Key::F11 => "F11"@,
        Key::F12 => "F12"@,
        Key::Char(c) => "Char('"@ + seq![c] + "')"@,
        Key::MouseMove(x, y) => "MouseMove("@ + dec_digits(x as nat) + ", "@ + dec_digits(y as nat)
            + ")"@,
        Key::MouseScroll(d, x, y) => "MouseScroll("@ + dec_int(d as int) + ", "@ + dec_digits(
            x as nat,
        ) + ", "@ + dec_digits(y as nat) + ")"@,
        Key::MouseDown(b, x, y) => "MouseDown("@ + mouse_name(b) + ", "@ + dec_digits(x as nat)
            + ", "@ + dec_digits(y as nat) + ")"@,
        Key::MouseUp(b, x, y) => "MouseUp("@ + mouse_name(b) + ", "@ + dec_digits(x as nat) + ", "@
            + dec_digits(y as nat) + ")"@,
        Key::MouseDrag(b, x, y) => "MouseDrag("@ + mouse_name(b) + ", "@ + dec_digits(x as nat)
            + ", "@ + dec_digits(y as nat) + ")"@,
        Key::MouseClick(b, x, y) => "MouseClick("@ + mouse_name(b) + ", "@ + dec_digits(x as nat)
            + ", "@ + dec_digits(y as nat) + ")"@,
        Key::Unknown => "Unknown"@,
    }
}

/// The label of a key on its own: the space key and the named keys
/// between angle brackets, arrows and mouse gestures with their payload,
/// a character key as the bare character, and the function keys by name.
pub open spec fn key_label(k: Key) -> Seq<char> {
    match k {
        Key::Char(c) => {
            if c == ' ' {
                "<Space>"@
            } else {
                seq![c]
            }
        },
        Key::Left => "<Arrow("@ + key_debug(k) + ")>"@,
        Key::Right => "<Arrow("@ + key_debug(k) + ")>"@,
        Key::Up => "<Arrow("@ + key_debug(k) + ")>"@,
        Key::Down => "<Arrow("@ + key_debug(k) + ")>"@,
        Key::Enter => "<"@ + key_debug(k) + ">"@,
        Key::Tab => "<"@ + key_debug(k) + ">"@,
        Key::Backspace => "<"@ + key_debug(k) + ">"@,
        Key::Esc => "<"@ + key_debug(k) + ">"@,
        Key::Ins => "<"@ + key_debug(k) + ">"@,
        Key::Delete => "<"@ + key_debug(k) + ">"@,
        Key::Home => "<"@ + key_debug(k) + ">"@,
        Key::End => "<"@ + key_debug(k) + ">"@,
        Key::PageUp => "<"@ + key_debug(k) + ">"@,
        Key::PageDown => "<"@ + key_debug(k) + ">"@,
        Key::MouseMove(_x, _y) => "<"@ + key_debug(k) + ">"@,
        Key::MouseScroll(_d, _x, _y) => "<"@ + key_debug(k) + ">"@,
        Key::MouseDown(_b, _x, _y) => "<"@ + key_debug(k) + ">"@,
        Key::MouseUp(_b, _x, _y) => "<"@ + key_debug(k) + ">"@,
        Key::MouseDrag(_b, _x, _y) => "<"@ + key_debug(k) + ">"@,
        Key::MouseClick(_b, _x, _y) => "<"@ + key_debug(k) + ">"@,
        _ => key_debug(k),
    }
}

/// The label of a modified key.  The fallback arms keep two quirks of the
/// client's bindings view: the control fallback names an arrow whatever
/// the key, and the shift fallback closes a parenthesis it never opened.
pub open spec fn mod_label(m: Mod) -> Seq<char> {
    match m {
        Mod::Alt(key) => match key {
            Key::Char(c) => {
                if c == ' ' {
                    "<Alt+Space>"@
                } else {
                    "<Alt+'"@ + seq![c] + "'>"@
                }
            },
            Key::Left => "<Alt+ArrowKey("@ + key_debug(key) + ")>"@,
            Key::Right => "<Alt+ArrowKey("@ + key_debug(key) + ")>"@,
            Key::Up => "<Alt+ArrowKey("@ + key_debug(key) + ")>"@,
            Key::Down => "<Alt+ArrowKey("@ + key_debug(key) + ")>"@,
            _ => "<Alt+"@ + key_debug(key) + ">"@,
        },
        Mod::Ctrl(key) => match key {
            Key::Char(c) => {
                if c == ' ' {
                    "<Ctrl+Space>"@
                } else {
                    "<Ctrl+'"@ + seq![c] + "'>"@
                }
            },
            _ => "<Ctrl+Arrow("@ + key_debug(key) + ")>"@,
        },
        Mod::Shift(key) => match key {
            Key::Char(c) => {
                if c == ' ' {
                    "<Shift+Space>"@
                } else {
                    "<Shift+"@ + key_debug(key) + ")>"@
                }
            },
            Key::Left => "<Shift+Arrow("@ + key_debug(key) + ")>"@,
            Key::Right => "<Shift+Arrow("@ + key_debug(key) + ")>"@,
            Key::Up => "<Shift+Arrow("@ + key_debug(key) + ")>"@,
            Key::Down => "<Shift+Arrow("@ + key_debug(key) + ")>"@,
            _ => "<Shift+"@ + key_debug(key) + ")>"@,
        },
        Mod::Any(key) => "Any("@ + key_debug(key) + ")"@,
        Mod::Clean(key) => "Clean("@ + key_debug(key) + ")"@,
    }
}

/// Relies on String::push: appends the given character at the end of the
/// string.
#[verifier::external_body]
fn push_char(s: &mut String, c: char)
    ensures
        final(s)@ == old(s)@.push(c),
{
    s.push(c);
}

/// Appends one decimal digit.
fn push_digit(s: &mut String, d: u64)
    requires
        d < 10,
    ensures
        final(s)@ == old(s)@.push(digit_char(d as nat)),
{
    if d == 0 {
        push_char(s, '0');
    } else if d == 1 {
        push_char(s, '1');
    } else if d == 2 {
        push_char(s, '2');
    } else if d == 3 {
        push_char(s, '3');
    } else if d == 4 {
        push_char(s, '4');
    } else if d == 5 {
        push_char(s, '5');
    } else if d == 6 {
        push_char(s, '6');
    } else if d == 7 {
        push_char(s, '7');
    } else if d == 8 {
        push_char(s, '8');
    } else {
        push_char(s, '9');
    }
}

/// Appends the decimal digits of `n`, most significant first.
fn push_dec(s: &mut String, n: u64)
    ensures
        final(s)@ == old(s)@ + dec_digits(n as nat),
    decreases n,
{
    if n < 10 {
        push_digit(s, n);
        proof {
            assert(old(s)@.push(digit_char(n as nat)) =~= old(s)@ + dec_digits(n as nat));
        }
    } else {
        push_dec(s, n / 10);
        push_digit(s, n % 10);
        proof {
            assert((old(s)@ + dec_digits((n / 10) as nat)).push(digit_char((n % 10) as nat))
                =~= old(s)@ + dec_digits(n as nat));
        }
    }
}

/// Appends the decimal rendering of a possibly negative number.
fn push_dec_signed(s: &mut String, v: i32)
    ensures
        final(s)@ == old(s)@ + dec_int(v as int),
{
    let w: i64 = v as i64;
    if w < 0 {
        push_char(s, '-');
        push_dec(s, (-w) as u64);
        proof {
            assert(old(s)@.push('-') + dec_digits((0 - v) as nat) =~= old(s)@ + dec_int(v as int));
        }
    } else {
        push_dec(s, w as u64);
    }
}

/// Appends the name of a mouse button.
fn push_mouse(s: &mut String, m: Mouse)
    ensures
        final(s)@ == old(s)@ + mouse_name(m),
{
    match m {
        Mouse::Left => s.append("Left"),
        Mouse::Right => s.append("Right"),
        Mouse::Middle => s.append("Middle"),
    }
}

/// Appends a mouse gesture's payload after its opening prefix:
/// `button, x, y` and the closing parenthesis.
fn push_mouse_payload(s: &mut String, prefix: &str, b: Mouse, x: u16, y: u16)
    ensures
        final(s)@ == old(s)@ + prefix@ + mouse_name(b) + ", "@ + dec_digits(x as nat) + ", "@
            + dec_digits(y as nat) + ")"@,
{
    s.append(prefix);
    push_mouse(s, b);
    s.append(", ");
    push_dec(s, x as u64);
    s.append(", ");
    push_dec(s, y as u64);
    s.append(")");
    proof {
        assert(s@ =~= old(s)@ + prefix@ + mouse_name(b) + ", "@ + dec_digits(x as nat) + ", "@
            + dec_digits(y as nat) + ")"@);
    }
}

/// Appends the plain rendering of a key.
#[verifier::rlimit(60)]
fn push_key_debug(s: &mut String, k: &Key)
    ensures
        final(s)@ == old(s)@ + key_debug(*k),
{
    match *k {
        Key::Enter => s.append("Enter"),
        Key::Tab => s.append("Tab"),
        Key::Backspace => s.append("Backspace"),
        Key::Esc => s.append("Esc"),
        Key::Left => s.append("Left"),
        Key::Right => s.append("Right"),
        Key::Up => s.append("Up"),
        Key::Down => s.append("Down"),
        Key::Ins => s.append("Ins"),
        Key::Delete => s.append("Delete"),
        Key::Home => s.append("Home"),
        Key::End => s.append("End"),
        Key::PageUp => s.append("PageUp"),
        Key::PageDown => s.append("PageDown"),
        Key::F0 => s.append("F0"),
        Key::F1 => s.append("F1"),
        Key::F2 => s.append("F2"),
        Key::F3 => s.append("F3"),
        Key::F4 => s.append("F4"),
        Key::F5 => s.append("F5"),
        Key::F6 => s.append("F6"),
        Key::F7 => s.append("F7"),
        Key::F8 => s.append("F8"),
        Key::F9 => s.append("F9"),
        Key::F10 => s.append("F10"),
        Key::F11 => s.append("F11"),
        Key::F12 => s.append("F12"),
        Key::Char(c) => {
            s.append("Char('");
            push_char(s, c);
            s.append("')");
            proof {
                assert(s@ =~= old(s)@ + key_debug(*k));
            }
        },
        Key::MouseMove(x, y) => {
            s.append("MouseMove(");
            push_dec(s, x as u64);
            s.append(", ");
            push_dec(s, y as u64);
            s.append(")");
            proof {
                assert(s@ =~= old(s)@ + key_debug(*k));
            }
        },
        Key::MouseScroll(d, x, y) => {
            s.append("MouseScroll(");
            push_dec_signed(s, d);
            s.append(", ");
            push_dec(s, x as u64);
            s.append(", ");
            push_dec(s, y as u64);
            s.append(")");
            proof {
                assert(s@ =~= old(s)@ + key_debug(*k));
            }
        },
        Key::MouseDown(b, x, y) => {
            push_mouse_payload(s, "MouseDown(", b, x, y);
            proof {
                assert(s@ =~= old(s)@ + key_debug(*k));
            }
        },
        Key::MouseUp(b, x, y) => {
            push_mouse_payload(s, "MouseUp(", b, x, y);
            proof {
                assert(s@ =~= old(s)@ + key_debug(*k));
            }
        },
        Key::MouseDrag(b, x, y) => {
            push_mouse_payload(s, "MouseDrag(", b, x, y);
            proof {
                assert(s@ =~= old(s)@ + key_debug(*k));
            }
        },
        Key::MouseClick(b, x, y) => {
            push_mouse_payload(s, "MouseClick(", b, x, y);
            proof {
                assert(s@ =~= old(s)@ + key_debug(*k));
            }
        },
        Key::Unknown => s.append("Unknown"),
    }
}

impl Key {
    /// The readable label of the key.
    pub fn label(&self) -> (r: String)
        ensures
            r@ == key_label(*self),
    {
        let mut s = String::new();
        match *self {
            Key::Char(c) => {
                if c == ' ' {
                    s.append("<Space>");
                } else {
                    push_char(&mut s, c);
                }
            },
            Key::Left | Key::Right | Key::Up | Key::Down => {
                s.append("<Arrow(");
                push_key_debug(&mut s, self);
                s.append(")>");
            },
            Key::Enter | Key::Tab | Key::Backspace | Key::Esc | Key::Ins | Key::Delete | Key::Home
                | Key::End | Key::PageUp | Key::PageDown | Key::MouseMove(..)
                | Key::MouseScroll(..) | Key::MouseDown(..) | Key::MouseUp(..)
                | Key::MouseDrag(..) | Key::MouseClick(..) => {
                s.append("<");
                push_key_debug(&mut s, self);
                s.append(">");
            },
            _ => {
                push_key_debug(&mut s, self);
            },
        }
        proof {
            assert(s@ =~= key_label(*self));
        }
        s
    }
}

impl Mod {
    /// The readable label of the modified key.
    pub fn label(&self) -> (r: String)
        ensures
            r@ == mod_label(*self),
    {
        let mut s = String::new();
        match *self {
            Mod::Alt(key) => {
                match key {
                    Key::Char(c) => {
                        if c == ' ' {
                            s.append("<Alt+Space>");
                        } else {
                            s.append("<Alt+'");
                            push_char(&mut s, c);
                            s.append("'>");
                        }
                    },
                    Key::Left | Key::Right | Key::Up | Key::Down => {
                        s.append("<Alt+ArrowKey(");
                        push_key_debug(&mut s, &key);
                        s.append(")>");
                    },
                    _ => {
                        s.append("<Alt+");
                        push_key_debug(&mut s, &key);
                        s.append(">");
                    },
                }
            },
            Mod::Ctrl(key) => {
                match key {
                    Key::Char(c) => {
                        if c == ' ' {
                            s.append("<Ctrl+Space>");
                        } else {
                            s.append("<Ctrl+'");
                            push_char(&mut s, c);
                            s.append("'>");
                        }
                    },
                    _ => {
                        s.append("<Ctrl+Arrow(");
                        push_key_debug(&mut s, &key);
                        s.append(")>");
                    },
                }
            },
            Mod::Shift(key) => {
                match key {
                    Key::Char(c) => {
                        if c == ' ' {
                            s.append("<Shift+Space>");
                        } else {
                            s.append("<Shift+");
                            push_key_debug(&mut s, &key);
                            s.append(")>");
                        }
                    },
                    Key::Left | Key::Right | Key::Up | Key::Down => {
                        s.append("<Shift+Arrow(");
                        push_key_debug(&mut s, &key);
                        s.append(")>");
                    },
                    _ => {
                        s.append("<Shift+");
                        push_key_debug(&mut s, &key);
                        s.append(")>");
                    },
                }
            },
            Mod::Any(key) => {
                s.append("Any(");
                push_key_debug(&mut s, &key);
                s.append(")");
            },
            Mod::Clean(key) => {
                s.append("Clean(");
                push_key_debug(&mut s, &key);
                s.append(")");
            },
        }
        proof {
            assert(s@ =~= mod_label(*self));
        }
        s
    }
}

} // verus!
