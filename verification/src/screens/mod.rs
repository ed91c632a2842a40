//! The state machines behind the full-screen views: what each key does to a
//! screen and what the screen hands back. Drawing them is the terminal
//! front end's work.

pub mod chat_screen;
pub mod eula_screen;
pub mod provider_screens;
pub mod settings_screen;

use vstd::prelude::*;

verus! {

/// A key as the screens see it.
#[derive(Debug, Clone, Copy, PartialEq, Eq, Structural)]
pub enum KeyCode {
    Up,
    Down,
    Left,
    Right,
    Enter,
    Esc,
    Tab,
    Backspace,
    PageUp,
    PageDown,
    F(u8),
    Char(char),
    Other,
}

/// A key press: the key, and whether Control was held.
#[derive(Debug, Clone, Copy, PartialEq, Eq, Structural)]
pub struct Key {
    pub code: KeyCode,
    pub ctrl: bool,
}

impl Key {
    /// A press of `code` alone.
    pub fn plain(code: KeyCode) -> (r: Key)
        ensures
            r == (Key { code, ctrl: false }),
    {
        Key { code, ctrl: false }
    }
}

/// What a key did to a screen: nothing final yet, or the screen's result.
#[derive(Debug, Clone, PartialEq, Eq)]
pub enum Step<T> {
    Continue,
    Done(T),
}

/// A button's text: `> label <` when it has the focus, `  label  ` when not.
pub fn button_text(label: &str, focused: bool) -> (r: String)
    ensures
        r@ == (if focused { "> "@ + label@ + " <"@ } else { "  "@ + label@ + "  "@ }),
{
    let mut r = String::from_str(if focused { "> " } else { "  " });
    r.append(label);
    r.append(if focused { " <" } else { "  " });
    r
}

} // verus!
