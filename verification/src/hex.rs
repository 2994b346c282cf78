//! Hexadecimal colour notation: six digits, two for each of red, green and blue.

use vstd::prelude::*;
use vstd::string::*;
use vstd::utf8::*;

verus! {

/// The value of one hexadecimal digit given as an ASCII byte.
/// A byte that is no hexadecimal digit counts as zero.
pub open spec fn nibble_value(chr: u8) -> u8 {
    if '0' as u8 <= chr <= '9' as u8 {
        (chr - '0' as u8) as u8
    } else if 'a' as u8 <= chr <= 'f' as u8 {
        (chr - 'a' as u8 + 10) as u8
    } else if 'A' as u8 <= chr <= 'F' as u8 {
        (chr - 'A' as u8 + 10) as u8
    } else {
        0
    }
}

/// The byte written by two hexadecimal digits, the high one first.
pub open spec fn byte_value(hi: u8, lo: u8) -> u8 {
    (nibble_value(hi) * 16 + nibble_value(lo)) as u8
}

/// The colour written by the first six bytes of `digits`: red, green, blue.
pub open spec fn rgb_value(digits: Seq<u8>) -> (u8, u8, u8)
    recommends
        digits.len() >= 6,
{
    (
        byte_value(digits[0], digits[1]),
        byte_value(digits[2], digits[3]),
        byte_value(digits[4], digits[5]),
    )
}

/// Decodes one hexadecimal digit; anything else decodes to zero.
pub fn nibble_of_char(chr: u8) -> (n: u8)
    ensures
        n == nibble_value(chr),
        n < 16,
{
    if '0' as u8 <= chr && chr <= '9' as u8 {
        chr - '0' as u8
    } else if 'a' as u8 <= chr && chr <= 'f' as u8 {
        chr - 'a' as u8 + 10
    } else if 'A' as u8 <= chr && chr <= 'F' as u8 {
        chr - 'A' as u8 + 10
    } else {
        0
    }
}

/// Decodes the two digits at `off` and `off + 1` into one byte.
pub fn byte_of_hex(ar: &[u8], off: usize) -> (b: u8)
    requires
        off + 1 < ar@.len(),
    ensures
        b == byte_value(ar@[off as int], ar@[off + 1]),
{
    let hi: u8 = nibble_of_char(ar[off]);
    let lo: u8 = nibble_of_char(ar[off + 1]);
    assert((hi << 4 | lo) == hi * 16 + lo) by (bit_vector)
        requires
            hi < 16,
            lo < 16,
    ;
    hi << 4 | lo
}

/// Decodes the six digits that start at `off`.
pub fn rgb_at(ar: &[u8], off: usize) -> (rgb: (u8, u8, u8))
    requires
        off + 6 <= ar@.len(),
    ensures
        rgb == rgb_value(ar@.subrange(off as int, off + 6)),
{
    proof {
        vstd::slice::axiom_spec_len(ar);
    }
    let r: u8 = byte_of_hex(ar, off);
    let g: u8 = byte_of_hex(ar, off + 2);
    let b: u8 = byte_of_hex(ar, off + 4);
    (r, g, b)
}

/// Decodes a colour written as six hexadecimal digits. Bytes past the sixth
/// are not looked at.
pub fn rgb_of_hex_triplet(def: &str) -> (rgb: (u8, u8, u8))
    requires
        def.spec_bytes().len() >= 6,
    ensures
        rgb == rgb_value(def.spec_bytes()),
{
    let bytes = def.as_bytes();
    rgb_at(bytes, 0)
}

/// The digit that writes `n`, for `n` below sixteen.
pub open spec fn hex_char(n: u8, upper: bool) -> char
    recommends
        n < 16,
{
    if n < 10 {
        ('0' as u8 + n) as char
    } else if upper {
        ('A' as u8 + n - 10) as char
    } else {
        ('a' as u8 + n - 10) as char
    }
}

/// The two digits that write `b`.
pub open spec fn hex_pair(b: u8, upper: bool) -> Seq<char> {
    seq![hex_char(b / 16, upper), hex_char(b % 16, upper)]
}

/// The six upper-case digits that write a colour.
pub open spec fn hex_text(rgb: (u8, u8, u8)) -> Seq<char> {
    hex_pair(rgb.0, true) + hex_pair(rgb.1, true) + hex_pair(rgb.2, true)
}

fn digit_text(n: u8, upper: bool) -> (s: &'static str)
    requires
        n < 16,
    ensures
        s@ == seq![hex_char(n, upper)],
{
    proof {
        reveal_strlit("0");
        reveal_strlit("1");
        reveal_strlit("2");
        reveal_strlit("3");
        reveal_strlit("4");
        reveal_strlit("5");
        reveal_strlit("6");
        reveal_strlit("7");
        reveal_strlit("8");
        reveal_strlit("9");
        reveal_strlit("A");
        reveal_strlit("B");
        reveal_strlit("C");
        reveal_strlit("D");
        reveal_strlit("E");
        reveal_strlit("F");
        reveal_strlit("a");
        reveal_strlit("b");
        reveal_strlit("c");
        reveal_strlit("d");
        reveal_strlit("e");
        reveal_strlit("f");
    }
    let s = if n == 0 {
        "0"
    } else if n == 1 {
        "1"
    } else if n == 2 {
        "2"
    } else if n == 3 {
        "3"
    } else if n == 4 {
        "4"
    } else if n == 5 {
        "5"
    } else if n == 6 {
        "6"
    } else if n == 7 {
        "7"
    } else if n == 8 {
        "8"
    } else if n == 9 {
        "9"
    } else if n == 10 {
        if upper { "A" } else { "a" }
    } else if n == 11 {
        if upper { "B" } else { "b" }
    } else if n == 12 {
        if upper { "C" } else { "c" }
    } else if n == 13 {
        if upper { "D" } else { "d" }
    } else if n == 14 {
        if upper { "E" } else { "e" }
    } else {
        if upper { "F" } else { "f" }
    };
    assert(s@ =~= seq![hex_char(n, upper)]);
    s
}

/// Appends the two digits of `b` to `out`.
pub fn push_hex(out: &mut String, b: u8, upper: bool)
    ensures
        final(out)@ == old(out)@ + hex_pair(b, upper),
{
    out.append(digit_text(b / 16, upper));
    out.append(digit_text(b % 16, upper));
    assert(out@ =~= old(out)@ + hex_pair(b, upper));
}

/// Writes a colour as six upper-case hexadecimal digits.
pub fn hex_of_rgb(r: u8, g: u8, b: u8) -> (s: String)
    ensures
        s@ == hex_text((r, g, b)),
{
    let mut s = String::new();
    push_hex(&mut s, r, true);
    push_hex(&mut s, g, true);
    push_hex(&mut s, b, true);
    assert(s@ =~= hex_text((r, g, b)));
    s
}

/// Whether `c` is one of `0`-`9`, `a`-`f`, `A`-`F`.
pub open spec fn is_hex_digit(c: char) -> bool {
    '0' <= c <= '9' || 'a' <= c <= 'f' || 'A' <= c <= 'F'
}

/// `c` with a lower-case letter `a`-`z` replaced by its capital.
pub open spec fn upper_case(c: char) -> char {
    if 'a' <= c <= 'z' {
        ((c as u8) - 32) as char
    } else {
        c
    }
}

/// Decoding six hexadecimal digits and writing the colour out again gives
/// the same digits, with letters in upper case.
pub proof fn lemma_decode_then_encode(digits: Seq<char>)
    requires
        digits.len() == 6,
        forall|i: int| 0 <= i < 6 ==> is_hex_digit(#[trigger] digits[i]),
    ensures
        hex_text(rgb_value(encode_utf8(digits))) == digits.map_values(|c: char| upper_case(c)),
{
    assert(is_ascii_chars(digits)) by {
        assert forall|i: int| 0 <= i < digits.len() implies '\0' <= #[trigger] digits[i]
            <= '\u{7f}' by {
            assert(is_hex_digit(digits[i]));
        }
    }
    is_ascii_chars_encode_utf8(digits);
    let bytes = encode_utf8(digits);
    assert forall|i: int| 0 <= i < 6 implies #[trigger] hex_char(nibble_value(bytes[i]), true)
        == upper_case(digits[i]) && nibble_value(bytes[i]) < 16 by {
        assert(is_hex_digit(digits[i]));
        assert(bytes[i] == digits[i] as u8);
    }
    assert forall|i: int| 0 <= i < 3 implies #[trigger] hex_pair(
        byte_value(bytes[2 * i], bytes[2 * i + 1]),
        true,
    ) =~= seq![upper_case(digits[2 * i]), upper_case(digits[2 * i + 1])] by {
        let hi = nibble_value(bytes[2 * i]);
        let lo = nibble_value(bytes[2 * i + 1]);
        assert(hex_char(hi, true) == upper_case(digits[2 * i]));
        assert(hex_char(lo, true) == upper_case(digits[2 * i + 1]));
        assert((hi * 16 + lo) / 16 == hi && (hi * 16 + lo) % 16 == lo);
    }
    assert(hex_pair(byte_value(bytes[0], bytes[1]), true) =~= seq![
        upper_case(digits[0]),
        upper_case(digits[1]),
    ]);
    assert(hex_pair(byte_value(bytes[2], bytes[3]), true) =~= seq![
        upper_case(digits[2]),
        upper_case(digits[3]),
    ]);
    assert(hex_pair(byte_value(bytes[4], bytes[5]), true) =~= seq![
        upper_case(digits[4]),
        upper_case(digits[5]),
    ]);
    assert(hex_text(rgb_value(bytes)) =~= digits.map_values(|c: char| upper_case(c)));
}

} // verus!
