use crossterm::style::{Color as TermColor, Stylize};
use vstd::prelude::*;

use crate::text::decimal;

verus! {

/// The colours that text can be drawn in.
#[derive(Clone, Copy, Debug, PartialEq, Eq, Structural)]
pub enum Color {
    Black,
    Red,
    Green,
    Yellow,
    Blue,
    Magenta,
    Cyan,
    White,
    DarkRed,
    DarkYellow,
}

/// The colour's index in the terminal's 256-colour palette.
pub open spec fn palette_index(c: Color) -> nat {
    match c {
        Color::Black => 0,
        Color::DarkRed => 1,
        Color::DarkYellow => 3,
        Color::Red => 9,
        Color::Green => 10,
        Color::Yellow => 11,
        Color::Blue => 12,
        Color::Magenta => 13,
        Color::Cyan => 14,
        Color::White => 15,
    }
}

/// `text` between the escape sequence that sets the foreground colour to `c`
/// and the one that sets it back to the default.
pub open spec fn styled(text: Seq<char>, c: Color) -> Seq<char> {
    seq!['\u{1b}', '[', '3', '8', ';', '5', ';'] + decimal(palette_index(c)) + seq!['m'] + text
        + seq!['\u{1b}', '[', '3', '9', 'm']
}

/// Relies on crossterm's `Stylize::with` and the `Display` of the styled
/// content it returns: on a terminal that takes ANSI sequences this writes
/// `ESC[38;5;<index>m`, the text, then `ESC[39m`.
#[verifier::external_body]
pub(crate) fn colorize(text: &str, color: Color) -> (r: String)
    ensures
        r@ == styled(text@, color),
{
    let c = match color {
        Color::Black => TermColor::Black,
        Color::Red => TermColor::Red,
        Color::Green => TermColor::Green,
        Color::Yellow => TermColor::Yellow,
        Color::Blue => TermColor::Blue,
        Color::Magenta => TermColor::Magenta,
        Color::Cyan => TermColor::Cyan,
        Color::White => TermColor::White,
        Color::DarkRed => TermColor::DarkRed,
        Color::DarkYellow => TermColor::DarkYellow,
    };
    format!("{}", text.with(c))
}

} // verus!
