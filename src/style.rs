//! Terminal styles and their ANSI rendering.

use vstd::prelude::*;

verus! {

/// One of the eight basic terminal colours.
#[derive(Clone, Copy, Debug, PartialEq, Eq, Structural)]
pub enum Color {
    Black,
    Red,
    Green,
    Yellow,
    Blue,
    Purple,
    Cyan,
    White,
}

/// A foreground colour and a bold flag; no colour and no bold is plain text.
#[derive(Clone, Copy, Debug, PartialEq, Eq, Structural)]
pub struct Style {
    pub foreground: Option<Color>,
    pub bold: bool,
}

/// The digit that follows `3` in the colour's foreground code.
pub open spec fn color_digit(c: Color) -> char {
    match c {
        Color::Black => '0',
        Color::Red => '1',
        Color::Green => '2',
        Color::Yellow => '3',
        Color::Blue => '4',
        Color::Purple => '5',
        Color::Cyan => '6',
        Color::White => '7',
    }
}

pub open spec fn is_plain(s: Style) -> bool {
    s.foreground.is_none() && !s.bold
}

/// The escape sequence written before styled text: `ESC [`, the bold code `1`,
/// the foreground code `3n` (separated by `;` when both are present), and `m`.
pub open spec fn ansi_prefix(s: Style) -> Seq<char> {
    if is_plain(s) {
        Seq::empty()
    } else {
        let bold: Seq<char> = if s.bold { seq!['1'] } else { Seq::empty() };
        let fg: Seq<char> = match s.foreground {
            Some(c) => if s.bold { seq![';', '3', color_digit(c)] } else { seq!['3', color_digit(c)] },
            None => Seq::empty(),
        };
        seq!['\x1b', '['] + bold + fg + seq!['m']
    }
}

/// The reset sequence written after styled text.
pub open spec fn ansi_suffix(s: Style) -> Seq<char> {
    if is_plain(s) {
        Seq::empty()
    } else {
        seq!['\x1b', '[', '0', 'm']
    }
}

pub open spec fn painted(s: Style, text: Seq<char>) -> Seq<char> {
    ansi_prefix(s) + text + ansi_suffix(s)
}

impl Style {
    pub open spec fn plain_spec() -> Style {
        Style { foreground: None, bold: false }
    }

    pub fn plain() -> (r: Style)
        ensures
            r == Style::plain_spec(),
    {
        Style { foreground: None, bold: false }
    }

    pub fn fg(c: Color) -> (r: Style)
        ensures
            r == (Style { foreground: Some(c), bold: false }),
    {
        Style { foreground: Some(c), bold: false }
    }

    pub fn bold(self) -> (r: Style)
        ensures
            r == (Style { bold: true, ..self }),
    {
        Style { bold: true, ..self }
    }
}

/// Relies on ansi_term's `Style::paint` and its `Display`: the prefix codes of
/// the style, the text, then the reset code, with no codes at all for a plain
/// style.
#[verifier::external_body]
pub(crate) fn paint(style: Style, text: &str) -> (r: String)
    ensures
        r@ == painted(style, text@),
{
    let colour = style.foreground.map(|c| match c {
        Color::Black => ansi_term::Colour::Black, Color::Red => ansi_term::Colour::Red,
        Color::Green => ansi_term::Colour::Green, Color::Yellow => ansi_term::Colour::Yellow,
        Color::Blue => ansi_term::Colour::Blue, Color::Purple => ansi_term::Colour::Purple,
        Color::Cyan => ansi_term::Colour::Cyan, Color::White => ansi_term::Colour::White,
    });
    let s = ansi_term::Style { foreground: colour, is_bold: style.bold, ..ansi_term::Style::new() };
    s.paint(text).to_string()
}

} // verus!
