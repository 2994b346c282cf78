//! The palette: sixteen colours as the 48 bytes that the console driver takes.

use vstd::prelude::*;
use vstd::slice::*;
use vstd::string::*;
use crate::color::Color;
use crate::hex::{hex_pair, hex_text, push_hex, rgb_of_hex_triplet, rgb_value};
use crate::stream::{
    blank, feed_line, find_byte, line_len, read_line, read_lines, Filling, PALETTE_BYTES,
    PALETTE_SIZE,
};

verus! {

/// Sixteen colour definitions, each six hexadecimal digits.
pub const DUMMY_COLORS: [&'static str; 16] = [
    "000000",
    "ffffff",
    "000000",
    "ffffff",
    "000000",
    "ffffff",
    "000000",
    "ffffff",
    "000000",
    "ffffff",
    "000000",
    "ffffff",
    "000000",
    "ffffff",
    "000000",
    "ffffff",
];

/// Sixteen colours: red, green and blue of slot `i` at the bytes `3 * i`,
/// `3 * i + 1` and `3 * i + 2`.
#[derive(Clone, Debug, PartialEq, Eq)]
pub struct Palette {
    colors: [u8; 48],
}

/// Why a colour scheme could not be turned into a palette.
#[derive(Clone, Debug, PartialEq, Eq)]
pub enum SchemeError {
    /// The scheme's file could not be opened.
    OpenFailed { fname: String, cause: String },
    /// A line holds a `#` with fewer than six bytes behind it.
    InvalidColorDefinition { line: Vec<u8> },
}

/// A `SchemeError` as plain values.
pub enum SchemeErrorView {
    OpenFailed { fname: Seq<char>, cause: Seq<char> },
    InvalidColorDefinition { line: Seq<u8> },
}

impl View for SchemeError {
    type V = SchemeErrorView;

    open spec fn view(&self) -> SchemeErrorView {
        match self {
            SchemeError::OpenFailed { fname, cause } => SchemeErrorView::OpenFailed {
                fname: fname@,
                cause: cause@,
            },
            SchemeError::InvalidColorDefinition { line } => SchemeErrorView::InvalidColorDefinition {
                line: line@,
            },
        }
    }
}

/// A result as plain values: the bytes of the palette, or the error.
pub open spec fn outcome(r: Result<Palette, SchemeError>) -> Result<Seq<u8>, SchemeErrorView> {
    match r {
        Ok(p) => Ok(p@),
        Err(e) => Err(e@),
    }
}

/// The 48 bytes that the sixteen colour definitions in `table` give: slot
/// `i` holds the colour that entry `i` writes.
pub open spec fn table_colors(table: Seq<&str>) -> Seq<u8> {
    Seq::new(
        48,
        |k: int|
            {
                let rgb = rgb_value(table[k / 3].spec_bytes());
                if k % 3 == 0 {
                    rgb.0
                } else if k % 3 == 1 {
                    rgb.1
                } else {
                    rgb.2
                }
            },
    )
}

/// The text that `String::from_utf8_lossy` makes of `bytes`.
pub uninterp spec fn lossy_text(bytes: Seq<u8>) -> Seq<char>;

/// `String::from_utf8_lossy` of std, made an owned `String`: the result
/// depends on the bytes alone.
#[verifier::external_body]
fn text_of_bytes(bytes: &[u8]) -> (s: String)
    ensures
        s@ == lossy_text(bytes@),
{
    String::from_utf8_lossy(bytes).into_owned()
}

impl SchemeError {
    /// The message for this error.
    pub open spec fn text(self) -> Seq<char> {
        match self {
            SchemeError::OpenFailed { fname, cause } => "failed to open "@ + fname@
                + " as file ("@ + cause@ + ")"@,
            SchemeError::InvalidColorDefinition { line } => "invalid color definition: "@
                + lossy_text(line@),
        }
    }

    /// The message for this error.
    pub fn message(&self) -> (s: String)
        ensures
            s@ == self.text(),
    {
        match self {
            SchemeError::OpenFailed { fname, cause } => {
                let mut s = String::from_str("failed to open ");
                s.append(fname.as_str());
                s.append(" as file (");
                s.append(cause.as_str());
                s.append(")");
                s
            },
            SchemeError::InvalidColorDefinition { line } => {
                let mut s = String::from_str("invalid color definition: ");
                let shown = text_of_bytes(line.as_slice());
                s.append(shown.as_str());
                s
            },
        }
    }
}

impl View for Palette {
    type V = Seq<u8>;

    closed spec fn view(&self) -> Seq<u8> {
        self.colors@
    }
}

/// `n` spaces.
pub open spec fn spaces(n: int) -> Seq<char> {
    Seq::new(if n > 0 { n as nat } else { 0 }, |i: int| ' ')
}

/// The three bytes of slot `i` in `colors`.
pub open spec fn slot_of(colors: Seq<u8>, i: int) -> (u8, u8, u8) {
    (colors[3 * i], colors[3 * i + 1], colors[3 * i + 2])
}

/// Line `i` of the listing of `colors`: the colour's name, set right in
/// fifteen columns, then ` => 0x` and the six digits of the colour.
pub open spec fn dump_line(colors: Seq<u8>, i: int) -> Seq<char> {
    let name = Color::at(i as u8).name();
    spaces(15 - name.len()) + name + " => 0x"@ + hex_text(slot_of(colors, i)) + "\n"@
}

/// The first `n` lines of the listing of `colors`.
pub open spec fn dump_text(colors: Seq<u8>, n: int) -> Seq<char>
    decreases n,
{
    if n <= 0 {
        Seq::empty()
    } else {
        dump_text(colors, n - 1) + dump_line(colors, n - 1)
    }
}

/// Slot `i` of `colors` written as a list of its three components, red and
/// green in upper-case digits, blue in lower-case ones.
pub open spec fn entry_text(colors: Seq<u8>, i: int) -> Seq<char> {
    let rgb = slot_of(colors, i);
    (if i == 0 {
        "("@
    } else {
        "\n "@
    }) + "((r 0x"@ + hex_pair(rgb.0, true) + ") (g 0x"@ + hex_pair(rgb.1, true) + ") (b 0x"@
        + hex_pair(rgb.2, false) + "))"@
}

/// The first `n` entries of `colors`, each as `entry_text` writes it.
pub open spec fn entries_text(colors: Seq<u8>, n: int) -> Seq<char>
    decreases n,
{
    if n <= 0 {
        Seq::empty()
    } else {
        entries_text(colors, n - 1) + entry_text(colors, n - 1)
    }
}

/// What the two definitions of the dummy palette write.
proof fn lemma_black_and_white()
    ensures
        "000000".spec_bytes().len() == 6,
        "ffffff".spec_bytes().len() == 6,
        rgb_value("000000".spec_bytes()) == (0u8, 0u8, 0u8),
        rgb_value("ffffff".spec_bytes()) == (255u8, 255u8, 255u8),
{
    reveal_strlit("000000");
    reveal_strlit("ffffff");
    is_ascii_spec_bytes("000000");
    is_ascii_spec_bytes("ffffff");
}

/// The dummy table alternates the two definitions.
proof fn lemma_dummy_colors()
    ensures
        forall|i: int|
            0 <= i < 16 ==> {
                &&& (#[trigger] DUMMY_COLORS@[i]).spec_bytes().len() == 6
                &&& rgb_value(DUMMY_COLORS@[i].spec_bytes()) == if i % 2 == 0 {
                    (0u8, 0u8, 0u8)
                } else {
                    (255u8, 255u8, 255u8)
                }
            },
{
    lemma_black_and_white();
    assert forall|i: int| 0 <= i < 16 implies {
        &&& (#[trigger] DUMMY_COLORS@[i]).spec_bytes().len() == 6
        &&& rgb_value(DUMMY_COLORS@[i].spec_bytes()) == if i % 2 == 0 {
            (0u8, 0u8, 0u8)
        } else {
            (255u8, 255u8, 255u8)
        }
    } by {
        if i % 2 == 0 {
            assert(DUMMY_COLORS@[i] == "000000");
        } else {
            assert(DUMMY_COLORS@[i] == "ffffff");
        }
    }
}

impl Palette {
    /// The three bytes of slot `i`.
    pub open spec fn slot(&self, i: int) -> (u8, u8, u8) {
        slot_of(self@, i)
    }

    /// What the text `input` is read as: the bytes of the palette that its
    /// lines fill, starting from black, or the first line that defines no
    /// colour behind its `#`.
    pub open spec fn parsed(input: Seq<u8>) -> Result<Seq<u8>, SchemeErrorView> {
        match read_lines(blank(), input) {
            Ok(filled) => Ok(filled.colors),
            Err(bad) => Err(SchemeErrorView::InvalidColorDefinition { line: bad }),
        }
    }

    /// A palette always holds 48 bytes.
    pub proof fn lemma_len(&self)
        ensures
            self@.len() == PALETTE_BYTES,
    {
    }

    /// Builds a palette from sixteen colour definitions, in order.
    pub fn new(colors: &[&str; 16]) -> (p: Palette)
        requires
            forall|i: int| 0 <= i < 16 ==> (#[trigger] colors@[i]).spec_bytes().len() >= 6,
        ensures
            p@.len() == PALETTE_BYTES,
            forall|i: int| 0 <= i < 16 ==> p.slot(i) == rgb_value(#[trigger] colors@[i].spec_bytes()),
            p@ == table_colors(colors@),
    {
        let mut idx: usize = 0;
        let mut pal: [u8; 48] = [0u8;48];
        let mut n: usize = 0;
        while n < PALETTE_SIZE
            invariant
                n <= PALETTE_SIZE,
                idx == 3 * n,
                forall|i: int| 0 <= i < 16 ==> (#[trigger] colors@[i]).spec_bytes().len() >= 6,
                forall|i: int|
                    0 <= i < n ==> slot_of(pal@, i) == rgb_value(
                        #[trigger] colors@[i].spec_bytes(),
                    ),
            decreases PALETTE_SIZE - n,
        {
            let def: &str = colors[n];
            let (r, g, b) = rgb_of_hex_triplet(def);
            pal[idx] = r;
            pal[idx + 1] = g;
            pal[idx + 2] = b;
            idx = idx + 3;
            n = n + 1;
        }
        assert(pal@ =~= table_colors(colors@)) by {
            assert forall|k: int| 0 <= k < 48 implies pal@[k] == table_colors(colors@)[k] by {
                let i = k / 3;
                assert(slot_of(pal@, i) == rgb_value(colors@[i].spec_bytes()));
            }
        }
        Palette { colors: pal }
    }

    /// A palette that alternates black and white.
    pub fn dummy() -> (p: Palette)
        ensures
            p@.len() == PALETTE_BYTES,
            forall|i: int|
                0 <= i < 16 ==> #[trigger] p.slot(i) == if i % 2 == 0 {
                    (0u8, 0u8, 0u8)
                } else {
                    (255u8, 255u8, 255u8)
                },
    {
        proof {
            lemma_dummy_colors();
        }
        let p = Palette::new(&DUMMY_COLORS);
        assert forall|i: int| 0 <= i < 16 implies #[trigger] p.slot(i) == if i % 2 == 0 {
            (0u8, 0u8, 0u8)
        } else {
            (255u8, 255u8, 255u8)
        } by {
            let def = DUMMY_COLORS@[i];
            assert(p.slot(i) == rgb_value(def.spec_bytes()));
        }
        p
    }

    /// Reads a palette from text in the line-oriented palette format.
    pub fn from_buffered_reader(input: &[u8]) -> (r: Result<Palette, SchemeError>)
        ensures
            outcome(r) == Palette::parsed(input@),
    {
        let len: usize = input.len();
        let mut pal_idx: usize = 0;
        let mut pal: [u8; 48] = [0u8;48];
        let mut pos: usize = 0;
        assert(pal@ =~= blank().colors);
        assert(input@.skip(0) =~= input@);
        while pos < len
            invariant
                len == input@.len(),
                pos <= len,
                pal_idx < PALETTE_SIZE,
                read_lines(blank(), input@) == read_lines(
                    Filling { colors: pal@, slot: pal_idx as nat },
                    input@.skip(pos as int),
                ),
            decreases len - pos,
        {
            let nl: usize = find_byte(input, pos, 0x0a);
            let end: usize = if nl < len {
                nl + 1
            } else {
                len
            };
            let line = slice_subrange(input, pos, end);
            let ghost rest = input@.skip(pos as int);
            let ghost before = Filling { colors: pal@, slot: pal_idx as nat };
            proof {
                assert(line_len(rest) == end - pos);
                assert(line@ =~= rest.take(end - pos));
                assert(rest.skip(end - pos) =~= input@.skip(end as int));
            }
            if !feed_line(&mut pal, &mut pal_idx, line) {
                assert(read_line(before, line@) is None);
                return Err(SchemeError::InvalidColorDefinition { line: slice_to_vec(line) });
            }
            pos = end;
        }
        Ok(Palette { colors: pal })
    }

    /// Reads a palette from what opening and reading the file `fname` gave:
    /// its text, or the reason why it could not be opened.
    pub fn from_file(fname: &String, opened: Result<Vec<u8>, String>) -> (r: Result<
        Palette,
        SchemeError,
    >)
        ensures
            outcome(r) == match opened {
                Ok(text) => Palette::parsed(text@),
                Err(why) => Err(SchemeErrorView::OpenFailed { fname: fname@, cause: why@ }),
            },
    {
        match opened {
            Err(e) => Err(SchemeError::OpenFailed { fname: fname.clone(), cause: e }),
            Ok(f) => Palette::from_buffered_reader(f.as_slice()),
        }
    }

    /// Reads a palette from the text that came in on standard input.
    pub fn from_stdin(input: &[u8]) -> (r: Result<Palette, SchemeError>)
        ensures
            outcome(r) == Palette::parsed(input@),
    {
        Palette::from_buffered_reader(input)
    }

    /// The 48 bytes, as the console driver takes them.
    pub fn as_bytes(&self) -> (b: &[u8; 48])
        ensures
            b@ == self@,
    {
        &self.colors
    }

    /// The colour in slot `i`.
    pub fn get(&self, i: usize) -> (rgb: (u8, u8, u8))
        requires
            i < PALETTE_SIZE,
        ensures
            rgb == self.slot(i as int),
    {
        (self.colors[3 * i], self.colors[3 * i + 1], self.colors[3 * i + 2])
    }

    /// Lists the sixteen colours, one line each: the name of the slot, then
    /// the colour in hexadecimal.
    pub fn dump(&self) -> (out: String)
        ensures
            out@ == dump_text(self@, 16),
    {
        let mut out = String::new();
        let mut i: usize = 0;
        assert(out@ =~= dump_text(self@, 0));
        while i < PALETTE_SIZE
            invariant
                i <= PALETTE_SIZE,
                out@ == dump_text(self@, i as int),
            decreases PALETTE_SIZE - i,
        {
            let name = Color::of_value(i as u8).to_string();
            let width: usize = name.as_str().unicode_len();
            proof {
                Color::at(i as u8).lemma_name_len();
            }
            let ghost start = out@;
            let mut pad: usize = width;
            while pad < 15
                invariant
                    width <= pad <= 15,
                    out@ == start + spaces(pad - width),
                decreases 15 - pad,
            {
                proof {
                    reveal_strlit(" ");
                }
                out.append(" ");
                pad = pad + 1;
                assert(out@ =~= start + spaces(pad - width));
            }
            out.append(name.as_str());
            out.append(" => 0x");
            let (r, g, b) = self.get(i);
            push_hex(&mut out, r, true);
            push_hex(&mut out, g, true);
            push_hex(&mut out, b, true);
            out.append("\n");
            assert(out@ =~= start + dump_line(self@, i as int));
            i = i + 1;
        }
        out
    }

    /// Writes the palette as one list of sixteen entries.
    pub fn to_string(&self) -> (out: String)
        ensures
            out@ == entries_text(self@, 16) + ")\n"@,
    {
        let mut out = String::new();
        let mut i: usize = 0;
        assert(out@ =~= entries_text(self@, 0));
        while i < PALETTE_SIZE
            invariant
                i <= PALETTE_SIZE,
                out@ == entries_text(self@, i as int),
            decreases PALETTE_SIZE - i,
        {
            let ghost start = out@;
            out.append(if i == 0 { "(" } else { "\n " });
            let (r, g, b) = self.get(i);
            out.append("((r 0x");
            push_hex(&mut out, r, true);
            out.append(") (g 0x");
            push_hex(&mut out, g, true);
            out.append(") (b 0x");
            push_hex(&mut out, b, false);
            out.append("))");
            assert(out@ =~= start + entry_text(self@, i as int));
            i = i + 1;
        }
        out.append(")\n");
        out
    }
}

} // verus!
