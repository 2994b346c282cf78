//! Colour schemes: the built-in ones by name, and custom ones that are read
//! from a file or from standard input.

use vstd::prelude::*;
use vstd::string::*;
use crate::palette::{outcome, table_colors, Palette, SchemeError, SchemeErrorView};

verus! {

/// The colours of the Linux console as it starts.
pub const DEFAULT_COLORS: [&'static str; 16] = [
    "000000",
    "aa0000",
    "00aa00",
    "aa5500",
    "0000aa",
    "aa00aa",
    "00aaaa",
    "aaaaaa",
    "555555",
    "ff5555",
    "55ff55",
    "ffff55",
    "5555ff",
    "ff55ff",
    "55ffff",
    "ffffff",
];

/// Solarized, dark background.
pub const SOLARIZED_COLORS_DARK: [&'static str; 16] = [
    "002b36",
    "dc322f",
    "859900",
    "b58900",
    "268bd2",
    "d33682",
    "2aa198",
    "eee8d5",
    "002b36",
    "cb4b16",
    "586e75",
    "657b83",
    "839496",
    "6c71c4",
    "93a1a1",
    "fdf6e3",
];

/// Solarized, light background.
pub const SOLARIZED_COLORS_LIGHT: [&'static str; 16] = [
    "eee8d5",
    "dc322f",
    "859900",
    "b58900",
    "268bd2",
    "d33682",
    "2aa198",
    "073642",
    "fdf6e3",
    "cb4b16",
    "93a1a1",
    "839496",
    "657b83",
    "6c71c4",
    "586e75",
    "002b36",
];

/// A colour scheme: one of the built-in ones, or a custom one, which is read
/// from the file named or, where no file is named, from standard input.
#[derive(Clone, Debug, PartialEq, Eq)]
pub enum Scheme {
    Default,
    SolarizedDark,
    SolarizedLight,
    Custom(Option<String>),
}

/// A `Scheme` with its file name as a sequence of characters.
pub enum SchemeView {
    Default,
    SolarizedDark,
    SolarizedLight,
    Custom(Option<Seq<char>>),
}

impl View for Scheme {
    type V = SchemeView;

    open spec fn view(&self) -> SchemeView {
        match self {
            Scheme::Default => SchemeView::Default,
            Scheme::SolarizedDark => SchemeView::SolarizedDark,
            Scheme::SolarizedLight => SchemeView::SolarizedLight,
            Scheme::Custom(Some(fname)) => SchemeView::Custom(Some(fname@)),
            Scheme::Custom(None) => SchemeView::Custom(None),
        }
    }
}

/// Every entry of the built-in tables is six bytes long.
proof fn lemma_tables_well_formed()
    ensures
        forall|i: int| 0 <= i < 16 ==> (#[trigger] DEFAULT_COLORS@[i]).spec_bytes().len() == 6,
        forall|i: int|
            0 <= i < 16 ==> (#[trigger] SOLARIZED_COLORS_DARK@[i]).spec_bytes().len() == 6,
        forall|i: int|
            0 <= i < 16 ==> (#[trigger] SOLARIZED_COLORS_LIGHT@[i]).spec_bytes().len() == 6,
{
    reveal_strlit("000000");
    reveal_strlit("aa0000");
    reveal_strlit("00aa00");
    reveal_strlit("aa5500");
    reveal_strlit("0000aa");
    reveal_strlit("aa00aa");
    reveal_strlit("00aaaa");
    reveal_strlit("aaaaaa");
    reveal_strlit("555555");
    reveal_strlit("ff5555");
    reveal_strlit("55ff55");
    reveal_strlit("ffff55");
    reveal_strlit("5555ff");
    reveal_strlit("ff55ff");
    reveal_strlit("55ffff");
    reveal_strlit("ffffff");
    reveal_strlit("002b36");
    reveal_strlit("dc322f");
    reveal_strlit("859900");
    reveal_strlit("b58900");
    reveal_strlit("268bd2");
    reveal_strlit("d33682");
    reveal_strlit("2aa198");
    reveal_strlit("eee8d5");
    reveal_strlit("cb4b16");
    reveal_strlit("586e75");
    reveal_strlit("657b83");
    reveal_strlit("839496");
    reveal_strlit("6c71c4");
    reveal_strlit("93a1a1");
    reveal_strlit("fdf6e3");
    reveal_strlit("073642");
    assert forall|i: int| 0 <= i < 16 implies (#[trigger] DEFAULT_COLORS@[i]).spec_bytes().len()
        == 6 by {
        is_ascii_spec_bytes(DEFAULT_COLORS@[i]);
    }
    assert forall|i: int| 0 <= i < 16 implies (#[trigger] SOLARIZED_COLORS_DARK@[i]).spec_bytes().len()
        == 6 by {
        is_ascii_spec_bytes(SOLARIZED_COLORS_DARK@[i]);
    }
    assert forall|i: int| 0 <= i < 16 implies (#[trigger] SOLARIZED_COLORS_LIGHT@[i]).spec_bytes().len()
        == 6 by {
        is_ascii_spec_bytes(SOLARIZED_COLORS_LIGHT@[i]);
    }
}

impl Scheme {
    /// The scheme that `name` stands for: a built-in one for its names, else
    /// the custom scheme in the file of that name.
    pub open spec fn named(name: Seq<char>) -> SchemeView {
        if name == "solarized"@ || name == "solarized_dark"@ || name == "sd"@ {
            SchemeView::SolarizedDark
        } else if name == "solarized_light"@ || name == "sl"@ {
            SchemeView::SolarizedLight
        } else if name == "default"@ || name == "normal"@ {
            SchemeView::Default
        } else {
            SchemeView::Custom(Some(name))
        }
    }

    /// How the scheme is shown: the name of a built-in scheme, the file name
    /// of a custom one, or a note that standard input is read.
    pub open spec fn label(scheme: SchemeView) -> Seq<char> {
        match scheme {
            SchemeView::Default => "default"@,
            SchemeView::SolarizedDark => "solarized_dark"@,
            SchemeView::SolarizedLight => "solarized_light"@,
            SchemeView::Custom(Some(fname)) => fname,
            SchemeView::Custom(None) => "<read stdin>"@,
        }
    }

    /// How the scheme is shown.
    pub fn to_string(&self) -> (s: String)
        ensures
            s@ == Scheme::label(self@),
    {
        match self {
            Scheme::Default => String::from_str("default"),
            Scheme::SolarizedDark => String::from_str("solarized_dark"),
            Scheme::SolarizedLight => String::from_str("solarized_light"),
            Scheme::Custom(Some(fname)) => fname.clone(),
            Scheme::Custom(None) => String::from_str("<read stdin>"),
        }
    }

    /// What the scheme resolves to, given what reading gave: for a built-in
    /// scheme the colours of its table; for a file its text read as a
    /// palette, or the reason why it could not be opened; for standard input
    /// its text read as a palette.
    pub open spec fn resolved(scheme: SchemeView, input: Result<Vec<u8>, String>) -> Result<
        Seq<u8>,
        SchemeErrorView,
    > {
        match scheme {
            SchemeView::Default => Ok(table_colors(DEFAULT_COLORS@)),
            SchemeView::SolarizedDark => Ok(table_colors(SOLARIZED_COLORS_DARK@)),
            SchemeView::SolarizedLight => Ok(table_colors(SOLARIZED_COLORS_LIGHT@)),
            SchemeView::Custom(Some(fname)) => match input {
                Ok(text) => Palette::parsed(text@),
                Err(why) => Err(SchemeErrorView::OpenFailed { fname, cause: why@ }),
            },
            SchemeView::Custom(None) => Palette::parsed(Scheme::stream_text(input)),
        }
    }

    /// The text that a custom scheme is read from, given what reading gave:
    /// for standard input a failure to read counts as the end of the input.
    pub open spec fn stream_text(input: Result<Vec<u8>, String>) -> Seq<u8> {
        match input {
            Ok(text) => text@,
            Err(_) => Seq::empty(),
        }
    }

    /// The palette of the scheme. For a custom scheme `input` is what
    /// reading its file or standard input gave; for a built-in scheme it is
    /// not looked at.
    pub fn palette(&self, input: Result<Vec<u8>, String>) -> (r: Result<Palette, SchemeError>)
        ensures
            outcome(r) == Scheme::resolved(self@, input),
    {
        proof {
            lemma_tables_well_formed();
        }
        match self {
            Scheme::Default => Ok(Palette::new(&DEFAULT_COLORS)),
            Scheme::SolarizedDark => Ok(Palette::new(&SOLARIZED_COLORS_DARK)),
            Scheme::SolarizedLight => Ok(Palette::new(&SOLARIZED_COLORS_LIGHT)),
            Scheme::Custom(Some(fname)) => Palette::from_file(fname, input),
            Scheme::Custom(None) => match input {
                Ok(text) => Palette::from_stdin(text.as_slice()),
                Err(_) => {
                    let nothing: Vec<u8> = Vec::new();
                    Palette::from_stdin(nothing.as_slice())
                },
            },
        }
    }
}

} // verus!
