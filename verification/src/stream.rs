//! The line-oriented palette format.
//!
//! Every line that is at least eight bytes long, its line feed included, and
//! holds a `#` defines one entry: the six bytes behind the first `#` are its
//! colour. A decimal number below sixteen in front of the `#` chooses the
//! slot; without one the entry goes to the slot behind the previous entry.
//! All other lines are skipped.

use vstd::prelude::*;
use crate::hex::{rgb_at, rgb_value};

verus! {

/// Number of entries in a palette.
pub const PALETTE_SIZE: usize = 16;

/// Number of bytes in a palette: three for each entry.
pub const PALETTE_BYTES: usize = 48;

/// Shortest line that can define an entry.
pub const MIN_LINE: usize = 8;

/// Number of hexadecimal digits in a colour.
pub const RAW_COLEXPR_SIZE: usize = 6;

/// The line feed that ends a line.
pub open spec fn newline() -> u8 {
    0x0a
}

/// The `#` that introduces a colour.
pub open spec fn hash() -> u8 {
    0x23
}

/// How many bytes stand in front of the first `b` in `s`; the length of `s`
/// where it holds no `b`.
pub open spec fn span_before(s: Seq<u8>, b: u8) -> nat
    decreases s.len(),
{
    if s.len() == 0 || s[0] == b {
        0
    } else {
        1 + span_before(s.drop_first(), b)
    }
}

/// The length of the first line of `input`, its line feed included.
pub open spec fn line_len(input: Seq<u8>) -> nat {
    let k = span_before(input, newline());
    if k < input.len() {
        k + 1
    } else {
        input.len()
    }
}

/// `span_before` is the one place `k` in front of which `s` holds no `b`
/// and at which it holds one or ends.
pub proof fn lemma_span_before(s: Seq<u8>, b: u8, k: int)
    requires
        0 <= k <= s.len(),
        forall|j: int| 0 <= j < k ==> s[j] != b,
        k == s.len() || s[k] == b,
    ensures
        span_before(s, b) == k,
    decreases s.len(),
{
    if k > 0 {
        let t = s.drop_first();
        assert forall|j: int| 0 <= j < k - 1 implies t[j] != b by {
            assert(t[j] == s[j + 1]);
        }
        lemma_span_before(t, b, k - 1);
    }
}

/// `span_before` never runs past the end.
pub proof fn lemma_span_before_bound(s: Seq<u8>, b: u8)
    ensures
        span_before(s, b) <= s.len(),
    decreases s.len(),
{
    if s.len() == 0 || s[0] == b {
    } else {
        lemma_span_before_bound(s.drop_first(), b);
    }
}

/// A text that is not empty has a first line, which is not empty either.
pub proof fn lemma_line_len(input: Seq<u8>)
    ensures
        input.len() > 0 ==> 0 < line_len(input) <= input.len(),
{
    lemma_span_before_bound(input, newline());
}

/// Whether `b` is one of the digits `0` to `9`.
pub open spec fn is_digit(b: u8) -> bool {
    '0' as u8 <= b <= '9' as u8
}

/// The number that the decimal digits `s` write.
pub open spec fn digits_value(s: Seq<u8>) -> nat
    decreases s.len(),
{
    if s.len() == 0 {
        0
    } else {
        digits_value(s.drop_last()) * 10 + (s.last() - '0' as u8) as nat
    }
}

/// `prefix` without the `+` that it may start with.
pub open spec fn unsigned_part(prefix: Seq<u8>) -> Seq<u8> {
    if prefix.len() > 0 && prefix[0] == '+' as u8 {
        prefix.drop_first()
    } else {
        prefix
    }
}

/// The slot that the text in front of a `#` names: a decimal number below
/// sixteen, which may follow one `+`. Any other text names none.
pub open spec fn index_prefix(prefix: Seq<u8>) -> Option<nat> {
    let digits = unsigned_part(prefix);
    if digits.len() > 0 && (forall|i: int| 0 <= i < digits.len() ==> is_digit(#[trigger] digits[i]))
        && digits_value(digits) < PALETTE_SIZE {
        Some(digits_value(digits))
    } else {
        None
    }
}

/// A palette while it is being filled: its bytes, and the slot that the next
/// entry without a number goes to.
pub struct Filling {
    pub colors: Seq<u8>,
    pub slot: nat,
}

/// `colors` with the three bytes of slot `slot` replaced by `rgb`.
pub open spec fn write_slot(colors: Seq<u8>, slot: nat, rgb: (u8, u8, u8)) -> Seq<u8> {
    let at = 3 * slot as int;
    colors.update(at, rgb.0).update(at + 1, rgb.1).update(at + 2, rgb.2)
}

/// The colour that a line defines: the six bytes behind its first `#`.
pub open spec fn colour_of(line: Seq<u8>) -> (u8, u8, u8) {
    let h = span_before(line, hash()) as int;
    rgb_value(line.subrange(h + 1, h + 1 + RAW_COLEXPR_SIZE))
}

/// What one line does to a palette that is being filled; `None` where the
/// line holds a `#` with fewer than six bytes behind it.
pub open spec fn read_line(st: Filling, line: Seq<u8>) -> Option<Filling> {
    let h = span_before(line, hash()) as int;
    if line.len() < MIN_LINE || h >= line.len() {
        Some(st)
    } else {
        let slot = match index_prefix(line.take(h)) {
            Some(n) => n,
            None => st.slot,
        };
        if h + 1 + RAW_COLEXPR_SIZE > line.len() {
            None
        } else {
            Some(
                Filling {
                    colors: write_slot(st.colors, slot, colour_of(line)),
                    slot: (slot + 1) % PALETTE_SIZE as nat,
                },
            )
        }
    }
}

/// What the lines of `input` do, one after the other; `Err` with the first
/// line that `read_line` refuses.
pub open spec fn read_lines(st: Filling, input: Seq<u8>) -> Result<Filling, Seq<u8>>
    decreases input.len(),
{
    if input.len() == 0 {
        Ok(st)
    } else {
        let n = line_len(input) as int;
        proof {
            lemma_line_len(input);
        }
        match read_line(st, input.take(n)) {
            None => Err(input.take(n)),
            Some(next) => read_lines(next, input.skip(n)),
        }
    }
}

/// A number of sixteen or more in front of the `#` names no slot.
pub proof fn lemma_large_index_names_none(prefix: Seq<u8>)
    requires
        forall|i: int| 0 <= i < prefix.len() ==> is_digit(#[trigger] prefix[i]),
        digits_value(prefix) >= PALETTE_SIZE,
    ensures
        index_prefix(prefix) is None,
{
    if prefix.len() > 0 {
        assert(is_digit(prefix[0]));
    }
}

/// A line of fewer than eight bytes, or without a `#`, changes nothing.
pub proof fn lemma_skipped_line(st: Filling, line: Seq<u8>)
    requires
        line.len() < MIN_LINE || forall|j: int| 0 <= j < line.len() ==> line[j] != hash(),
    ensures
        read_line(st, line) == Some(st),
{
    if line.len() >= MIN_LINE {
        lemma_span_before(line, hash(), line.len() as int);
    }
}

/// A line whose text in front of the `#` names the slot `n` writes its
/// colour there, and makes the slot behind that one current, the first slot
/// behind the last.
pub proof fn lemma_numbered_entry(st: Filling, line: Seq<u8>, n: nat)
    requires
        line.len() >= MIN_LINE,
        span_before(line, hash()) + 1 + RAW_COLEXPR_SIZE <= line.len(),
        index_prefix(line.take(span_before(line, hash()) as int)) == Some(n),
    ensures
        n < PALETTE_SIZE,
        read_line(st, line) == Some(
            Filling {
                colors: write_slot(st.colors, n, colour_of(line)),
                slot: if n + 1 == PALETTE_SIZE {
                    0
                } else {
                    n + 1
                },
            },
        ),
{
}

/// A line whose text in front of the `#` names no slot, be it empty,
/// malformed or out of range, writes its colour to the slot that was
/// current before the line, and makes the slot behind that one current,
/// the first slot behind the last.
pub proof fn lemma_unnumbered_entry(st: Filling, line: Seq<u8>)
    requires
        st.slot < PALETTE_SIZE,
        line.len() >= MIN_LINE,
        span_before(line, hash()) + 1 + RAW_COLEXPR_SIZE <= line.len(),
        index_prefix(line.take(span_before(line, hash()) as int)) is None,
    ensures
        read_line(st, line) == Some(
            Filling {
                colors: write_slot(st.colors, st.slot, colour_of(line)),
                slot: if st.slot + 1 == PALETTE_SIZE {
                    0
                } else {
                    st.slot + 1
                },
            },
        ),
{
}

/// An empty palette: all slots black, the first slot next.
pub open spec fn blank() -> Filling {
    Filling { colors: Seq::new(PALETTE_BYTES as nat, |i: int| 0u8), slot: 0 }
}

/// The place of the first `b` in `s[from..]`, or the length of `s`.
pub fn find_byte(s: &[u8], from: usize, b: u8) -> (k: usize)
    requires
        from <= s@.len(),
    ensures
        from <= k <= s@.len(),
        k - from == span_before(s@.skip(from as int), b),
{
    let n: usize = s.len();
    let mut k: usize = from;
    while k < n && s[k] != b
        invariant
            n == s@.len(),
            from <= k <= n,
            forall|j: int| from <= j < k ==> s@[j] != b,
        decreases n - k,
    {
        k = k + 1;
    }
    proof {
        lemma_span_before(s@.skip(from as int), b, k - from);
    }
    k
}

/// Reads the slot number in `line[..end]`.
pub fn parse_index(line: &[u8], end: usize) -> (r: Option<usize>)
    requires
        end <= line@.len(),
    ensures
        r is Some <==> index_prefix(line@.take(end as int)) is Some,
        r matches Some(n) ==> index_prefix(line@.take(end as int)) == Some(n as nat),
{
    let ghost prefix = line@.take(end as int);
    let start: usize = if end > 0 && line[0] == '+' as u8 {
        1
    } else {
        0
    };
    let ghost digits = unsigned_part(prefix);
    assert(digits =~= prefix.skip(start as int));
    if start == end {
        return None;
    }
    let mut acc: usize = 0;
    let mut i: usize = start;
    while i < end
        invariant
            start <= i <= end <= line@.len(),
            prefix == line@.take(end as int),
            digits == unsigned_part(prefix),
            digits == prefix.skip(start as int),
            forall|j: int| 0 <= j < i - start ==> is_digit(#[trigger] digits[j]),
            acc <= PALETTE_SIZE,
            acc == if digits_value(digits.take(i - start)) < PALETTE_SIZE {
                digits_value(digits.take(i - start))
            } else {
                PALETTE_SIZE as nat
            },
        decreases end - i,
    {
        let c: u8 = line[i];
        assert(digits[i - start] == c);
        if c < '0' as u8 || c > '9' as u8 {
            assert(!is_digit(digits[i - start]));
            return None;
        }
        proof {
            let next = digits.take(i - start + 1);
            assert(next.drop_last() =~= digits.take(i - start));
            assert(next.last() == c);
        }
        let d: usize = (c - '0' as u8) as usize;
        acc = acc * 10 + d;
        if acc > PALETTE_SIZE {
            acc = PALETTE_SIZE;
        }
        i = i + 1;
    }
    assert(digits.take(end - start) =~= digits);
    if acc < PALETTE_SIZE {
        Some(acc)
    } else {
        None
    }
}

/// Applies one line to the palette bytes `colors` and the slot `slot`.
/// Returns `false`, and leaves both as they were, where the line holds a `#`
/// with fewer than six bytes behind it.
pub(crate) fn feed_line(colors: &mut [u8; 48], slot: &mut usize, line: &[u8]) -> (ok: bool)
    requires
        *old(slot) < PALETTE_SIZE,
    ensures
        *final(slot) < PALETTE_SIZE,
        match read_line(Filling { colors: old(colors)@, slot: *old(slot) as nat }, line@) {
            Some(next) => ok && final(colors)@ == next.colors && *final(slot) == next.slot,
            None => !ok && *final(colors) == *old(colors) && *final(slot) == *old(slot),
        },
{
    let len: usize = line.len();
    if len < MIN_LINE {
        return true;
    }
    let h: usize = find_byte(line, 0, '#' as u8);
    assert(line@.skip(0) =~= line@);
    if h >= len {
        return true;
    }
    let mut target: usize = *slot;
    if h != 0 {
        match parse_index(line, h) {
            Some(n) => {
                target = n;
            },
            None => {},
        }
    } else {
        assert(index_prefix(line@.take(0)) is None);
    }
    let off: usize = h + 1;
    if off > len - RAW_COLEXPR_SIZE {
        return false;
    }
    let (r, g, b) = rgb_at(line, off);
    colors[target * 3] = r;
    colors[target * 3 + 1] = g;
    colors[target * 3 + 2] = b;
    *slot = (target + 1) % PALETTE_SIZE;
    true
}

} // verus!
