//! Text primitives: decimal digits, std string calls with their contracts.
use vstd::prelude::*;

verus! {

/// The ASCII digit for a value below ten.
pub open spec fn digit_char(d: nat) -> char {
    if d == 0 { '0' }
    else if d == 1 { '1' }
    else if d == 2 { '2' }
    else if d == 3 { '3' }
    else if d == 4 { '4' }
    else if d == 5 { '5' }
    else if d == 6 { '6' }
    else if d == 7 { '7' }
    else if d == 8 { '8' }
    else { '9' }
}

/// The decimal representation of `n`, without leading zeros ("0" for zero).
pub open spec fn dec(n: nat) -> Seq<char>
    decreases n,
{
    if n < 10 {
        seq![digit_char(n)]
    } else {
        dec(n / 10).push(digit_char(n % 10))
    }
}

/// `String::push`: appends one character.
#[verifier::external_body]
pub(crate) fn push_char(s: &mut String, c: char)
    ensures
        final(s)@ == old(s)@.push(c),
{
    s.push(c);
}

fn digit_of(d: u64) -> (c: char)
    requires
        d < 10,
    ensures
        c == digit_char(d as nat),
{
    if d == 0 { '0' }
    else if d == 1 { '1' }
    else if d == 2 { '2' }
    else if d == 3 { '3' }
    else if d == 4 { '4' }
    else if d == 5 { '5' }
    else if d == 6 { '6' }
    else if d == 7 { '7' }
    else if d == 8 { '8' }
    else { '9' }
}

/// Decimal text reads back as its number: it is at least one digit, all digits, without a
/// sign, and the digits spell `n`.
pub proof fn law_decimal_reads_back(n: nat)
    ensures
        dec(n).len() >= 1,
        forall|i: int| 0 <= i < dec(n).len() ==> '0' <= #[trigger] dec(n)[i] <= '9',
        digits_value(dec(n), 10) == Some(n),
        n < 256 ==> parse_u8_radix(dec(n), 10) == Some(n as u8),
    decreases n,
{
    if n < 10 {
        assert(digit_value(digit_char(n)) == n);
        assert(dec(n).drop_last() =~= Seq::<char>::empty());
        assert(digits_value(Seq::<char>::empty(), 10) == Some(0nat));
        assert(digits_value(dec(n), 10) == Some(0 * 10 + n));
    } else {
        law_decimal_reads_back(n / 10);
        assert(digit_value(digit_char(n % 10)) == n % 10);
        let s = dec(n);
        assert(s.drop_last() =~= dec(n / 10));
        assert(s.last() == digit_char(n % 10));
        assert((n / 10) * 10 + n % 10 == n);
        assert(digits_value(s, 10) == Some((n / 10) * 10 + n % 10));
        assert forall|i: int| 0 <= i < s.len() implies '0' <= #[trigger] s[i] <= '9' by {
            if i < s.len() - 1 {
                assert(s[i] == dec(n / 10)[i]);
            }
        }
    }
    assert('0' <= dec(n)[0] <= '9');
}

/// Appends the decimal digits of `n` to `out`.
pub fn push_dec(out: &mut String, n: u64)
    ensures
        final(out)@ == old(out)@ + dec(n as nat),
    decreases n,
{
    let ghost start = out@;
    if n >= 10 {
        push_dec(out, n / 10);
    }
    let c = digit_of(n % 10);
    push_char(out, c);
    assert(out@ =~= start + dec(n as nat));
}


/// A UTF-8 encoding has between one and four bytes per character.
pub proof fn lemma_utf8_len_bounds(s: Seq<char>)
    ensures
        s.len() <= vstd::utf8::encode_utf8(s).len() <= 4 * s.len(),
    decreases s.len(),
{
    if s.len() > 0 {
        lemma_utf8_len_bounds(s.drop_first());
    }
}

/// Unicode `White_Space` (PropList.txt): the characters that `str::trim` removes.
pub open spec fn is_white_space(c: char) -> bool {
    let u = c as u32;
    ||| 0x09 <= u <= 0x0D
    ||| u == 0x20
    ||| u == 0x85
    ||| u == 0xA0
    ||| u == 0x1680
    ||| 0x2000 <= u <= 0x200A
    ||| u == 0x2028
    ||| u == 0x2029
    ||| u == 0x202F
    ||| u == 0x205F
    ||| u == 0x3000
}

/// `s` without its leading whitespace.
pub open spec fn trim_start_spec(s: Seq<char>) -> Seq<char>
    decreases s.len(),
{
    if s.len() > 0 && is_white_space(s[0]) {
        trim_start_spec(s.drop_first())
    } else {
        s
    }
}

/// `s` without its trailing whitespace.
pub open spec fn trim_end_spec(s: Seq<char>) -> Seq<char>
    decreases s.len(),
{
    if s.len() > 0 && is_white_space(s.last()) {
        trim_end_spec(s.drop_last())
    } else {
        s
    }
}

/// `s` without leading and trailing whitespace.
pub open spec fn trim_spec(s: Seq<char>) -> Seq<char> {
    trim_end_spec(trim_start_spec(s))
}

/// `str::trim`: the slice with leading and trailing `White_Space` characters removed.
#[verifier::external_body]
pub(crate) fn trim_str<'a>(s: &'a str) -> (r: &'a str)
    ensures
        r@ == trim_spec(s@),
{
    s.trim()
}

/// The value of an ASCII alphanumeric character as a digit (`0-9`, then `a-z` or `A-Z`
/// for ten and up); 36 for any other character, which no radix accepts.
pub open spec fn digit_value(c: char) -> nat {
    if '0' <= c <= '9' {
        ((c as int) - ('0' as int)) as nat
    } else if 'a' <= c <= 'z' {
        ((c as int) - ('a' as int) + 10) as nat
    } else if 'A' <= c <= 'Z' {
        ((c as int) - ('A' as int) + 10) as nat
    } else {
        36
    }
}

/// The number that the digits `ds` spell in `radix`, if each of them is a digit of it.
pub open spec fn digits_value(ds: Seq<char>, radix: nat) -> Option<nat>
    decreases ds.len(),
{
    if ds.len() == 0 {
        Some(0)
    } else {
        match digits_value(ds.drop_last(), radix) {
            Some(v) => if digit_value(ds.last()) < radix {
                Some(v * radix + digit_value(ds.last()))
            } else {
                None
            },
            None => None,
        }
    }
}

/// What `u8::from_str_radix` accepts: an optional `+` followed by at least one digit of
/// `radix`, whose value fits in a `u8`.
pub open spec fn parse_u8_radix(s: Seq<char>, radix: nat) -> Option<u8> {
    let ds = if s.len() > 0 && s[0] == '+' { s.drop_first() } else { s };
    if ds.len() == 0 {
        None
    } else {
        match digits_value(ds, radix) {
            Some(v) => if v <= 255 { Some(v as u8) } else { None },
            None => None,
        }
    }
}

/// `u8::from_str_radix`, its error dropped: an optional `+` sign and then digits of
/// `radix` only (no whitespace), with a value of at most 255.
#[verifier::external_body]
pub(crate) fn u8_from_str_radix(s: &str, radix: u32) -> (r: Option<u8>)
    requires
        2 <= radix <= 36,
    ensures
        r == parse_u8_radix(s@, radix as nat),
{
    u8::from_str_radix(s, radix).ok()
}

/// A character in ASCII lower case: `A`-`Z` become `a`-`z`, everything else stays.
pub open spec fn ascii_lower(c: char) -> char {
    if 'A' <= c <= 'Z' { ((c as u32) + 32) as char } else { c }
}

/// A character in ASCII upper case: `a`-`z` become `A`-`Z`, everything else stays.
pub open spec fn ascii_upper(c: char) -> char {
    if 'a' <= c <= 'z' { ((c as u32) - 32) as char } else { c }
}

/// `s` in ASCII lower case.
pub open spec fn ascii_lowercase(s: Seq<char>) -> Seq<char> {
    s.map_values(|c: char| ascii_lower(c))
}

/// ASCII lower-casing is done once and for all: doing it again changes nothing, and it
/// keeps text ASCII.
pub proof fn lemma_ascii_lowercase_idempotent(s: Seq<char>)
    requires
        vstd::utf8::is_ascii_chars(s),
    ensures
        vstd::utf8::is_ascii_chars(ascii_lowercase(s)),
        ascii_lowercase(ascii_lowercase(s)) == ascii_lowercase(s),
{
    assert forall|i: int| 0 <= i < s.len() implies
        ascii_lower(ascii_lower(#[trigger] s[i])) == ascii_lower(s[i])
        && '\0' <= ascii_lower(s[i]) <= '\u{7f}' by {
        let c = s[i];
        if 'A' <= c <= 'Z' {
            let u = (c as u32) + 32;
            assert(97 <= u <= 122);
            assert((u as char) as u32 == u);
        }
    }
    assert(ascii_lowercase(ascii_lowercase(s)) =~= ascii_lowercase(s));
}

/// `s` in ASCII upper case.
pub open spec fn ascii_uppercase(s: Seq<char>) -> Seq<char> {
    s.map_values(|c: char| ascii_upper(c))
}

/// What `str::to_lowercase` gives for a string (Unicode case mapping).
pub uninterp spec fn lowercase_of(s: Seq<char>) -> Seq<char>;

/// `str::to_lowercase`; its result is named `lowercase_of` and depends on the string alone.
/// On ASCII text the Unicode lowercase mapping turns `A`-`Z` into `a`-`z` and leaves every
/// other character as it is; for other text only the name is stated.
#[verifier::external_body]
pub(crate) fn to_lowercase(s: &str) -> (r: String)
    ensures
        r@ == lowercase_of(s@),
        vstd::utf8::is_ascii_chars(s@) ==> r@ == ascii_lowercase(s@),
{
    s.to_lowercase()
}

/// What `str::to_uppercase` gives for a string (Unicode case mapping).
pub uninterp spec fn uppercase_of(s: Seq<char>) -> Seq<char>;

/// `str::to_uppercase`; its result is named `uppercase_of` and depends on the string alone.
/// On ASCII text the Unicode uppercase mapping turns `a`-`z` into `A`-`Z` and leaves every
/// other character as it is; for other text only the name is stated.
#[verifier::external_body]
pub(crate) fn to_uppercase(s: &str) -> (r: String)
    ensures
        r@ == uppercase_of(s@),
        vstd::utf8::is_ascii_chars(s@) ==> r@ == ascii_uppercase(s@),
{
    s.to_uppercase()
}

/// Character-wise equality of two strings.
pub fn str_eq(a: &str, b: &str) -> (r: bool)
    ensures
        r == (a@ == b@),
{
    let n = a.unicode_len();
    if n != b.unicode_len() {
        return false;
    }
    let mut i: usize = 0;
    while i < n
        invariant
            n == a@.len(),
            n == b@.len(),
            i <= n,
            forall|j: int| 0 <= j < i ==> a@[j] == b@[j],
        decreases n - i,
    {
        if a.get_char(i) != b.get_char(i) {
            return false;
        }
        i = i + 1;
    }
    assert(a@ =~= b@);
    true
}

/// `n` copies of `c`.
pub open spec fn repeat_spec(c: char, n: nat) -> Seq<char> {
    Seq::new(n, |_i: int| c)
}

/// Appends `n` copies of `c` to `out`.
pub fn push_repeat(out: &mut String, c: char, n: usize)
    ensures
        final(out)@ == old(out)@ + repeat_spec(c, n as nat),
{
    let ghost start = out@;
    let mut i: usize = 0;
    while i < n
        invariant
            i <= n,
            out@ == start + repeat_spec(c, i as nat),
        decreases n - i,
    {
        push_char(out, c);
        i = i + 1;
        assert(out@ =~= start + repeat_spec(c, i as nat));
    }
}

/// `s` padded with spaces on the right to `width` characters (as `{:<width}` does).
pub open spec fn pad_spec(s: Seq<char>, width: nat) -> Seq<char> {
    if s.len() < width {
        s + repeat_spec(' ', (width - s.len()) as nat)
    } else {
        s
    }
}

/// Appends `s` to `out`, padded with spaces to `width` characters.
pub fn push_padded(out: &mut String, s: &str, width: usize)
    ensures
        final(out)@ == old(out)@ + pad_spec(s@, width as nat),
{
    let n = s.unicode_len();
    out.append(s);
    if n < width {
        push_repeat(out, ' ', width - n);
    }
}

/// The pieces of `s` between the occurrences of `c`, as `str::split` with a `char` gives
/// them: one more piece than there are occurrences of `c`.
pub open spec fn split_spec(s: Seq<char>, c: char) -> Seq<Seq<char>>
    decreases s.len(),
{
    if s.len() == 0 {
        seq![Seq::<char>::empty()]
    } else {
        let rest = split_spec(s.drop_first(), c);
        if s[0] == c {
            seq![Seq::<char>::empty()] + rest
        } else {
            rest.update(0, seq![s[0]] + rest[0])
        }
    }
}

proof fn lemma_split_nonempty(s: Seq<char>, c: char)
    ensures
        split_spec(s, c).len() >= 1,
    decreases s.len(),
{
    if s.len() > 0 {
        lemma_split_nonempty(s.drop_first(), c);
    }
}

/// The pieces of `s` between the occurrences of `c`.
pub fn split_on_char(s: &str, c: char) -> (r: Vec<String>)
    ensures
        r.len() == split_spec(s@, c).len(),
        forall|j: int| 0 <= j < r.len() ==> #[trigger] r[j]@ == split_spec(s@, c)[j],
{
    let n = s.unicode_len();
    let mut pieces: Vec<String> = Vec::new();
    let ghost mut gp: Seq<Seq<char>> = Seq::empty();
    let mut cur = String::new();
    let mut i: usize = 0;
    proof {
        assert(s@.subrange(0, n as int) =~= s@);
        lemma_split_nonempty(s@, c);
        let sp = split_spec(s@, c);
        assert(sp =~= gp + seq![cur@ + sp[0]] + sp.drop_first());
    }
    while i < n
        invariant
            n == s@.len(),
            i <= n,
            pieces.len() == gp.len(),
            forall|j: int| 0 <= j < pieces.len() ==> #[trigger] pieces[j]@ == gp[j],
            split_spec(s@, c) == gp + seq![cur@ + split_spec(s@.subrange(i as int, n as int), c)[0]]
                + split_spec(s@.subrange(i as int, n as int), c).drop_first(),
        decreases n - i,
    {
        let x = s.get_char(i);
        let ghost tail = s@.subrange(i as int, n as int);
        let ghost next = s@.subrange(i + 1, n as int);
        proof {
            assert(tail.drop_first() =~= next);
            assert(tail[0] == x);
            lemma_split_nonempty(next, c);
        }
        if x == c {
            let done = cur;
            proof {
                gp = gp.push(done@);
            }
            pieces.push(done);
            cur = String::new();
            proof {
                assert(split_spec(tail, c) == seq![Seq::<char>::empty()] + split_spec(next, c));
                assert(split_spec(s@, c) =~= gp + seq![cur@ + split_spec(next, c)[0]]
                    + split_spec(next, c).drop_first());
            }
        } else {
            let ghost before = cur@;
            push_char(&mut cur, x);
            proof {
                let rest = split_spec(next, c);
                assert(split_spec(tail, c) == rest.update(0, seq![x] + rest[0]));
                assert(split_spec(tail, c).drop_first() =~= rest.drop_first());
                assert(cur@ + rest[0] =~= before + (seq![x] + rest[0]));
                assert(split_spec(s@, c) =~= gp + seq![cur@ + rest[0]] + rest.drop_first());
            }
        }
        i = i + 1;
    }
    proof {
        let e = s@.subrange(n as int, n as int);
        assert(e =~= Seq::<char>::empty());
        assert(split_spec(e, c) =~= seq![Seq::<char>::empty()]);
        assert(cur@ + split_spec(e, c)[0] =~= cur@);
        assert(split_spec(s@, c) =~= gp.push(cur@));
        gp = gp.push(cur@);
    }
    pieces.push(cur);
    pieces
}

} // verus!
