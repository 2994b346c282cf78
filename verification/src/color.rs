//! The sixteen console colours by name: eight hues, each plain or bright.

use vstd::prelude::*;
use vstd::string::*;

verus! {

/// A console colour: its hue, and whether it is the bright variant.
#[derive(Debug, Clone, Copy, PartialEq, Eq, Structural)]
pub enum Color {
    Black(bool),
    Red(bool),
    Green(bool),
    Yellow(bool),
    Blue(bool),
    Magenta(bool),
    Cyan(bool),
    White(bool),
}

impl Color {
    /// The colour that stands at place `val` of a palette: the hues in the
    /// order black, red, green, yellow, blue, magenta, cyan, white, first
    /// plain, then bright.
    pub open spec fn at(val: u8) -> Color {
        let bright = val >= 8;
        let hue = val % 8;
        if hue == 0 {
            Color::Black(bright)
        } else if hue == 1 {
            Color::Red(bright)
        } else if hue == 2 {
            Color::Green(bright)
        } else if hue == 3 {
            Color::Yellow(bright)
        } else if hue == 4 {
            Color::Blue(bright)
        } else if hue == 5 {
            Color::Magenta(bright)
        } else if hue == 6 {
            Color::Cyan(bright)
        } else {
            Color::White(bright)
        }
    }

    /// Whether this is the bright variant.
    pub open spec fn bright(self) -> bool {
        match self {
            Color::Black(b) => b,
            Color::Red(b) => b,
            Color::Green(b) => b,
            Color::Yellow(b) => b,
            Color::Blue(b) => b,
            Color::Magenta(b) => b,
            Color::Cyan(b) => b,
            Color::White(b) => b,
        }
    }

    /// The name of the hue.
    pub open spec fn hue(self) -> Seq<char> {
        match self {
            Color::Black(_) => "black"@,
            Color::Red(_) => "red"@,
            Color::Green(_) => "green"@,
            Color::Yellow(_) => "yellow"@,
            Color::Blue(_) => "blue"@,
            Color::Magenta(_) => "magenta"@,
            Color::Cyan(_) => "cyan"@,
            Color::White(_) => "white"@,
        }
    }

    /// `s`, with `bright ` in front of it where `b` holds.
    pub open spec fn with_brightness(b: bool, s: Seq<char>) -> Seq<char> {
        if b {
            "bright "@ + s
        } else {
            s
        }
    }

    /// The full name: the hue, behind `bright ` for a bright colour.
    pub open spec fn name(self) -> Seq<char> {
        Color::with_brightness(self.bright(), self.hue())
    }

    /// The colour at place `val` of a palette.
    pub fn of_value(val: u8) -> (c: Color)
        requires
            val < 16,
        ensures
            c == Color::at(val),
    {
        match val {
            0x00 => Color::Black(false),
            0x01 => Color::Red(false),
            0x02 => Color::Green(false),
            0x03 => Color::Yellow(false),
            0x04 => Color::Blue(false),
            0x05 => Color::Magenta(false),
            0x06 => Color::Cyan(false),
            0x07 => Color::White(false),
            0x08 => Color::Black(true),
            0x09 => Color::Red(true),
            0x0a => Color::Green(true),
            0x0b => Color::Yellow(true),
            0x0c => Color::Blue(true),
            0x0d => Color::Magenta(true),
            0x0e => Color::Cyan(true),
            _ => Color::White(true),
        }
    }

    /// Puts `bright ` in front of `s` where `b` holds.
    pub fn format_brightness(b: bool, s: &str) -> (r: String)
        ensures
            r@ == Color::with_brightness(b, s@),
    {
        if b {
            return String::from_str("bright ").concat(s);
        }
        String::from_str(s)
    }

    /// The full name of the colour.
    pub fn to_string(&self) -> (r: String)
        ensures
            r@ == self.name(),
    {
        match *self {
            Color::Black(b) => Color::format_brightness(b, "black"),
            Color::Red(b) => Color::format_brightness(b, "red"),
            Color::Green(b) => Color::format_brightness(b, "green"),
            Color::Yellow(b) => Color::format_brightness(b, "yellow"),
            Color::Blue(b) => Color::format_brightness(b, "blue"),
            Color::Magenta(b) => Color::format_brightness(b, "magenta"),
            Color::Cyan(b) => Color::format_brightness(b, "cyan"),
            Color::White(b) => Color::format_brightness(b, "white"),
        }
    }

    /// No name is longer than fourteen characters.
    pub proof fn lemma_name_len(self)
        ensures
            3 <= self.name().len() <= 14,
    {
        reveal_strlit("bright ");
        reveal_strlit("black");
        reveal_strlit("red");
        reveal_strlit("green");
        reveal_strlit("yellow");
        reveal_strlit("blue");
        reveal_strlit("magenta");
        reveal_strlit("cyan");
        reveal_strlit("white");
    }
}

} // verus!
