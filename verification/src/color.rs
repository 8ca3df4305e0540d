//! Colors written as `#RRGGBB` or `r,g,b`.
use vstd::prelude::*;
use vstd::utf8::encode_utf8;
use vstd::utf8::is_ascii_chars;
use crate::text::{law_decimal_reads_back, dec, digit_char, digit_value, digits_value, trim_start_spec, trim_end_spec, trim_spec, trim_str, parse_u8_radix, u8_from_str_radix, split_spec, split_on_char, lemma_utf8_len_bounds};

verus! {

/// A 24-bit color.
pub type Rgb = (u8, u8, u8);

/// A trimmed color that is `#` followed by six bytes of UTF-8.
pub open spec fn is_hex_form(t: Seq<char>) -> bool {
    t.len() > 0 && t[0] == '#' && encode_utf8(t.drop_first()).len() == 6
}

/// Three optional bytes, all present.
pub open spec fn all_three(a: Option<u8>, b: Option<u8>, c: Option<u8>) -> Option<Rgb> {
    match (a, b, c) {
        (Some(r), Some(g), Some(bl)) => Some((r, g, bl)),
        _ => None,
    }
}

/// The color that `s` denotes: after trimming, `#` and six hex pairs, or three decimal
/// components separated by commas (each trimmed); `None` for anything else.
pub open spec fn parse_color_spec(s: Seq<char>) -> Option<Rgb> {
    let t = trim_spec(s);
    if is_hex_form(t) {
        let h = t.drop_first();
        if is_ascii_chars(h) {
            all_three(
                parse_u8_radix(h.subrange(0, 2), 16),
                parse_u8_radix(h.subrange(2, 4), 16),
                parse_u8_radix(h.subrange(4, 6), 16),
            )
        } else {
            None
        }
    } else {
        let p = split_spec(t, ',');
        if p.len() == 3 {
            all_three(
                parse_u8_radix(trim_spec(p[0]), 10),
                parse_u8_radix(trim_spec(p[1]), 10),
                parse_u8_radix(trim_spec(p[2]), 10),
            )
        } else {
            None
        }
    }
}

/// Parses a color written as `#RRGGBB` (hex) or `r,g,b` (decimal), ignoring surrounding
/// whitespace; anything else, six non-ASCII bytes after `#` among it, gives `None`.
pub fn parse_color(s: &str) -> (r: Option<Rgb>)
    ensures
        r == parse_color_spec(s@),
{
    broadcast use vstd::string::group_string_axioms;
    let t = trim_str(s);
    let n = t.unicode_len();
    if n > 0 && t.get_char(0) == '#' {
        let hex = t.substring_char(1, n);
        assert(hex@ =~= t@.drop_first());
        proof { lemma_utf8_len_bounds(hex@); }
        if n - 1 <= 6 && hex.len() == 6 {
            if hex.is_ascii() {
                proof { vstd::utf8::is_ascii_chars_encode_utf8(hex@); }
                let a = u8_from_str_radix(hex.substring_ascii(0, 2), 16);
                let b = u8_from_str_radix(hex.substring_ascii(2, 4), 16);
                let c = u8_from_str_radix(hex.substring_ascii(4, 6), 16);
                return match (a, b, c) {
                    (Some(x), Some(y), Some(z)) => Some((x, y, z)),
                    _ => None,
                };
            } else {
                return None;
            }
        }
    }
    let p = split_on_char(t, ',');
    if p.len() == 3 {
        let a = u8_from_str_radix(trim_str(p[0].as_str()), 10);
        let b = u8_from_str_radix(trim_str(p[1].as_str()), 10);
        let c = u8_from_str_radix(trim_str(p[2].as_str()), 10);
        return match (a, b, c) {
            (Some(x), Some(y), Some(z)) => Some((x, y, z)),
            _ => None,
        };
    }
    None
}


/// `r,g,b` in decimal.
pub open spec fn decimal_triple(c: Rgb) -> Seq<char> {
    dec(c.0 as nat) + seq![','] + dec(c.1 as nat) + seq![','] + dec(c.2 as nat)
}

proof fn lemma_digit_char(d: nat)
    requires
        d < 10,
    ensures
        digit_value(digit_char(d)) == d,
        '0' <= digit_char(d) <= '9',
{
}

proof fn lemma_split_comma_free(x: Seq<char>, rest: Seq<char>)
    requires
        forall|i: int| 0 <= i < x.len() ==> #[trigger] x[i] != ',',
    ensures
        split_spec(x + seq![','] + rest, ',') == seq![x] + split_spec(rest, ','),
        split_spec(x, ',') == seq![x],
    decreases x.len(),
{
    if x.len() == 0 {
        assert((x + seq![','] + rest).drop_first() =~= rest);
        assert(x =~= Seq::<char>::empty());
    } else {
        let t = x.drop_first();
        lemma_split_comma_free(t, rest);
        let whole = x + seq![','] + rest;
        assert(whole.drop_first() =~= t + seq![','] + rest);
        assert(whole[0] == x[0]);
        assert(seq![x[0]] + t =~= x);
        assert(split_spec(whole, ',') =~= seq![x] + split_spec(rest, ','));
        assert(x.drop_first() =~= t);
        assert(split_spec(x, ',') =~= seq![x]);
    }
}

proof fn lemma_trim_digits(s: Seq<char>)
    requires
        s.len() >= 1,
        forall|i: int| 0 <= i < s.len() ==> '0' <= #[trigger] s[i] <= '9',
    ensures
        trim_spec(s) == s,
{
    assert('0' <= s[0] <= '9');
    assert('0' <= s.last() <= '9');
}

proof fn lemma_parse_dec(n: u8)
    ensures
        parse_u8_radix(trim_spec(dec(n as nat)), 10) == Some(n),
        forall|i: int| 0 <= i < dec(n as nat).len() ==> #[trigger] dec(n as nat)[i] != ',',
{
    law_decimal_reads_back(n as nat);
    lemma_trim_digits(dec(n as nat));
    assert(dec(n as nat)[0] != '+');
}

/// Every color written as three decimal components separated by commas parses back to
/// itself.
pub proof fn law_decimal_triple_roundtrip(c: Rgb)
    ensures
        parse_color_spec(decimal_triple(c)) == Some(c),
{
    let (a, b, d) = (dec(c.0 as nat), dec(c.1 as nat), dec(c.2 as nat));
    lemma_parse_dec(c.0);
    lemma_parse_dec(c.1);
    lemma_parse_dec(c.2);
    law_decimal_reads_back(c.0 as nat);
    law_decimal_reads_back(c.2 as nat);
    let s = decimal_triple(c);
    assert(s[0] == a[0]);
    assert(s.last() == d.last());
    assert(trim_start_spec(s) == s);
    assert(trim_end_spec(s) == s);
    assert(s == a + seq![','] + (b + seq![','] + d));
    lemma_split_comma_free(a, b + seq![','] + d);
    lemma_split_comma_free(b, d);
    lemma_split_comma_free(d, Seq::empty());
    assert(split_spec(s, ',') =~= seq![a, b, d]);
}


/// The hex digit for a value below sixteen, its letters in upper or lower case.
pub open spec fn hex_char(d: nat, upper: bool) -> char {
    if d < 10 {
        digit_char(d)
    } else if d == 10 {
        if upper { 'A' } else { 'a' }
    } else if d == 11 {
        if upper { 'B' } else { 'b' }
    } else if d == 12 {
        if upper { 'C' } else { 'c' }
    } else if d == 13 {
        if upper { 'D' } else { 'd' }
    } else if d == 14 {
        if upper { 'E' } else { 'e' }
    } else {
        if upper { 'F' } else { 'f' }
    }
}

/// A byte as two hex digits.
pub open spec fn hex_pair(n: u8, upper: bool) -> Seq<char> {
    seq![hex_char((n / 16) as nat, upper), hex_char((n % 16) as nat, upper)]
}

/// `#RRGGBB`, its letters in upper or lower case.
pub open spec fn hex_color(c: Rgb, upper: bool) -> Seq<char> {
    seq!['#'] + hex_pair(c.0, upper) + hex_pair(c.1, upper) + hex_pair(c.2, upper)
}

proof fn lemma_hex_char(d: nat, upper: bool)
    requires
        d < 16,
    ensures
        digit_value(hex_char(d, upper)) == d,
        '0' <= hex_char(d, upper) <= 'f',
        hex_char(d, upper) != '+',
{
    if d < 10 {
        lemma_digit_char(d);
    }
}

proof fn lemma_parse_hex_pair(n: u8, upper: bool)
    ensures
        parse_u8_radix(hex_pair(n, upper), 16) == Some(n),
{
    let p = hex_pair(n, upper);
    let hi = (n / 16) as nat;
    let lo = (n % 16) as nat;
    lemma_hex_char(hi, upper);
    lemma_hex_char(lo, upper);
    assert(p.drop_last() =~= seq![hex_char(hi, upper)]);
    let q = p.drop_last();
    assert(q.drop_last() =~= Seq::<char>::empty());
    assert(digits_value(q.drop_last(), 16) == Some(0nat));
    assert(q.last() == hex_char(hi, upper));
    assert(digits_value(q, 16) == Some(0 * 16 + hi));
    assert(digits_value(p, 16) == Some(hi * 16 + lo));
    assert(hi * 16 + lo == n);
}

/// Every color written as `#RRGGBB`, in upper- or lower-case hex, parses back to itself.
pub proof fn law_hex_roundtrip(c: Rgb, upper: bool)
    ensures
        parse_color_spec(hex_color(c, upper)) == Some(c),
{
    let s = hex_color(c, upper);
    let (p0, p1, p2) = (hex_pair(c.0, upper), hex_pair(c.1, upper), hex_pair(c.2, upper));
    lemma_hex_char((c.0 / 16) as nat, upper);
    lemma_hex_char((c.0 % 16) as nat, upper);
    lemma_hex_char((c.1 / 16) as nat, upper);
    lemma_hex_char((c.1 % 16) as nat, upper);
    lemma_hex_char((c.2 / 16) as nat, upper);
    lemma_hex_char((c.2 % 16) as nat, upper);
    lemma_parse_hex_pair(c.0, upper);
    lemma_parse_hex_pair(c.1, upper);
    lemma_parse_hex_pair(c.2, upper);
    assert(s.len() == 7);
    assert(s[0] == '#');
    assert(s.last() == p2[1]);
    assert(trim_start_spec(s) == s);
    assert(trim_end_spec(s) == s);
    let h = s.drop_first();
    assert(h =~= p0 + p1 + p2);
    assert(is_ascii_chars(h));
    vstd::utf8::is_ascii_chars_encode_utf8(h);
    assert(h.subrange(0, 2) =~= p0);
    assert(h.subrange(2, 4) =~= p1);
    assert(h.subrange(4, 6) =~= p2);
}

} // verus!
