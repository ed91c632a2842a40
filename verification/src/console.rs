//! Terminal colours for line-mode output.

use vstd::prelude::*;

use crate::text::{decimal, decimal_string};

verus! {

pub const RESET: &'static str = "\x1b[0m";

/// The escape sequence that sets a 24-bit foreground colour.
pub open spec fn spec_rgb(r: u8, g: u8, b: u8) -> Seq<char> {
    "\x1b[38;2;"@ + decimal(r as nat) + ";"@ + decimal(g as nat) + ";"@ + decimal(b as nat) + "m"@
}

/// The escape sequence that sets the foreground colour `(r, g, b)`.
pub fn rgb(r: u8, g: u8, b: u8) -> (s: String)
    ensures
        s@ == spec_rgb(r, g, b),
{
    let mut s = String::from_str("\x1b[38;2;");
    s.append(decimal_string(r as u128).as_str());
    s.append(";");
    s.append(decimal_string(g as u128).as_str());
    s.append(";");
    s.append(decimal_string(b as u128).as_str());
    s.append("m");
    s
}

pub fn red() -> (s: String)
    ensures
        s@ == spec_rgb(0xE6, 0x7E, 0x80),
{
    rgb(0xE6, 0x7E, 0x80)
}

pub fn yellow() -> (s: String)
    ensures
        s@ == spec_rgb(0xDB, 0xBC, 0x7F),
{
    rgb(0xDB, 0xBC, 0x7F)
}

pub fn aqua() -> (s: String)
    ensures
        s@ == spec_rgb(0x83, 0xC0, 0x92),
{
    rgb(0x83, 0xC0, 0x92)
}

pub fn fg_secondary() -> (s: String)
    ensures
        s@ == spec_rgb(0x9D, 0xA9, 0xA0),
{
    rgb(0x9D, 0xA9, 0xA0)
}

/// `text` in `color` when the terminal shows colours, else `text` alone.
pub fn paint(color: &str, text: &str, colored: bool) -> (s: String)
    ensures
        s@ == (if colored {
            color@ + text@ + RESET@
        } else {
            text@
        }),
{
    if colored {
        let mut s = color.to_owned();
        s.append(text);
        s.append(RESET);
        s
    } else {
        text.to_owned()
    }
}

} // verus!
