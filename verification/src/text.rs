//! Character-level scanning over decoded text: whitespace, searching,
//! tokenising, line splitting and decimal numbers.
//!
//! Text is handled as a `Vec<char>` holding the decoded characters, and most
//! scanners look at a window `[lo, hi)` of it.

use vstd::prelude::*;

verus! {

broadcast use vstd::std_specs::vec::group_vec_axioms;

/// Unicode `White_Space`, the property that `char::is_whitespace` tests and
/// that `str::trim` and `str::split_whitespace` split on.
pub open spec fn is_ws(c: char) -> bool {
    let u = c as u32;
    ||| 9 <= u <= 13
    ||| u == 32
    ||| u == 0x85
    ||| u == 0xA0
    ||| u == 0x1680
    ||| 0x2000 <= u <= 0x200A
    ||| u == 0x2028
    ||| u == 0x2029
    ||| u == 0x202F
    ||| u == 0x205F
    ||| u == 0x3000
}

pub open spec fn is_digit(c: char) -> bool {
    '0' <= c <= '9'
}

/// The classes of characters that the scanners of this crate stop on.
#[derive(Clone, Copy, PartialEq, Eq, Structural)]
pub enum CharClass {
    /// Unicode whitespace.
    Whitespace,
    /// An ASCII digit.
    Digit,
    /// A character of a JSON number as the parsers scan it: digit, `.`, `-`.
    JsonNumber,
    /// A character of a number inside free text: digit, `.`, `-`, `+`.
    TextNumber,
    /// A character that may open a number inside free text: digit, `-`, `+`.
    NumberStart,
    /// The line feed character.
    Newline,
    /// The decimal point.
    Dot,
}

pub open spec fn class_has(cls: CharClass, c: char) -> bool {
    match cls {
        CharClass::Whitespace => is_ws(c),
        CharClass::Digit => is_digit(c),
        CharClass::JsonNumber => is_digit(c) || c == '.' || c == '-',
        CharClass::TextNumber => is_digit(c) || c == '.' || c == '-' || c == '+',
        CharClass::NumberStart => is_digit(c) || c == '-' || c == '+',
        CharClass::Newline => c == '\n',
        CharClass::Dot => c == '.',
    }
}

pub fn class_contains(cls: CharClass, c: char) -> (b: bool)
    ensures
        b == class_has(cls, c),
{
    match cls {
        CharClass::Whitespace => {
            let u = c as u32;
            (9 <= u && u <= 13) || u == 32 || u == 0x85 || u == 0xA0 || u == 0x1680 || (0x2000
                <= u && u <= 0x200A) || u == 0x2028 || u == 0x2029 || u == 0x202F || u == 0x205F
                || u == 0x3000
        },
        CharClass::Digit => '0' <= c && c <= '9',
        CharClass::JsonNumber => ('0' <= c && c <= '9') || c == '.' || c == '-',
        CharClass::TextNumber => ('0' <= c && c <= '9') || c == '.' || c == '-' || c == '+',
        CharClass::NumberStart => ('0' <= c && c <= '9') || c == '-' || c == '+',
        CharClass::Newline => c == '\n',
        CharClass::Dot => c == '.',
    }
}

/// Length of the longest prefix of `s` whose characters are in class `cls`
/// (when `inside`) or outside it (when `!inside`).
pub open spec fn span(s: Seq<char>, cls: CharClass, inside: bool) -> nat
    decreases s.len(),
{
    if s.len() == 0 || class_has(cls, s[0]) != inside {
        0
    } else {
        1 + span(s.skip(1), cls, inside)
    }
}

/// Length of the longest suffix of `s` whose characters are in class `cls`
/// (when `inside`) or outside it (when `!inside`).
pub open spec fn rspan(s: Seq<char>, cls: CharClass, inside: bool) -> nat
    decreases s.len(),
{
    if s.len() == 0 || class_has(cls, s.last()) != inside {
        0
    } else {
        1 + rspan(s.drop_last(), cls, inside)
    }
}

pub proof fn lemma_span_bounds(s: Seq<char>, cls: CharClass, inside: bool)
    ensures
        span(s, cls, inside) <= s.len(),
        forall|i: int| 0 <= i < span(s, cls, inside) ==> class_has(cls, #[trigger] s[i]) == inside,
        span(s, cls, inside) < s.len() ==> class_has(cls, s[span(s, cls, inside) as int]) != inside,
    decreases s.len(),
{
    if s.len() > 0 && class_has(cls, s[0]) == inside {
        lemma_span_bounds(s.skip(1), cls, inside);
        assert forall|i: int| 0 <= i < span(s, cls, inside) implies class_has(cls, #[trigger] s[i])
            == inside by {
            if i > 0 {
                assert(s[i] == s.skip(1)[i - 1]);
            }
        }
        if span(s, cls, inside) < s.len() {
            assert(s[span(s, cls, inside) as int] == s.skip(1)[span(s.skip(1), cls, inside) as int]);
        }
    }
}

pub proof fn lemma_rspan_bounds(s: Seq<char>, cls: CharClass, inside: bool)
    ensures
        rspan(s, cls, inside) <= s.len(),
        forall|i: int|
            s.len() - rspan(s, cls, inside) <= i < s.len() ==> class_has(cls, #[trigger] s[i])
                == inside,
    decreases s.len(),
{
    if s.len() > 0 && class_has(cls, s.last()) == inside {
        lemma_rspan_bounds(s.drop_last(), cls, inside);
        assert forall|i: int|
            s.len() - rspan(s, cls, inside) <= i < s.len() implies class_has(cls, #[trigger] s[i])
            == inside by {
            if i < s.len() - 1 {
                assert(s[i] == s.drop_last()[i]);
            }
        }
    }
}

/// The characters of `s` in `[lo, hi)`.
pub open spec fn window(s: Seq<char>, lo: int, hi: int) -> Seq<char> {
    s.subrange(lo, hi)
}

/// Scan forward from `lo` while characters are (`inside`) or are not
/// (`!inside`) in class `cls`; returns the position where the scan stops.
pub fn scan(s: &Vec<char>, lo: usize, hi: usize, cls: CharClass, inside: bool) -> (end: usize)
    requires
        lo <= hi <= s.len(),
    ensures
        end == lo + span(window(s@, lo as int, hi as int), cls, inside),
        lo <= end <= hi,
{
    let mut i = lo;
    while i < hi && class_contains(cls, s[i]) == inside
        invariant
            lo <= i <= hi <= s.len(),
            span(window(s@, lo as int, hi as int), cls, inside) == (i - lo) + span(
                window(s@, i as int, hi as int),
                cls,
                inside,
            ),
        decreases hi - i,
    {
        assert(window(s@, i as int, hi as int).skip(1) =~= window(s@, i + 1, hi as int));
        i = i + 1;
    }
    proof {
        lemma_span_bounds(window(s@, i as int, hi as int), cls, inside);
    }
    i
}

/// Scan backward from `hi` while characters are (`inside`) or are not
/// (`!inside`) in class `cls`; returns the position where the scan stops.
pub fn rscan(s: &Vec<char>, lo: usize, hi: usize, cls: CharClass, inside: bool) -> (start: usize)
    requires
        lo <= hi <= s.len(),
    ensures
        start == hi - rspan(window(s@, lo as int, hi as int), cls, inside),
        lo <= start <= hi,
{
    let mut j = hi;
    while j > lo && class_contains(cls, s[j - 1]) == inside
        invariant
            lo <= j <= hi <= s.len(),
            rspan(window(s@, lo as int, hi as int), cls, inside) == (hi - j) + rspan(
                window(s@, lo as int, j as int),
                cls,
                inside,
            ),
        decreases j - lo,
    {
        assert(window(s@, lo as int, j as int).drop_last() =~= window(s@, lo as int, j - 1));
        j = j - 1;
    }
    proof {
        lemma_rspan_bounds(window(s@, lo as int, j as int), cls, inside);
    }
    j
}

/// `pat` occurs in `s` at position `i`.
pub open spec fn matches_at(s: Seq<char>, pat: Seq<char>, i: int) -> bool {
    0 <= i && i + pat.len() <= s.len() && s.subrange(i, i + pat.len()) == pat
}

/// The first occurrence of `pat` in `s` at or after position `i`.
pub open spec fn find_from(s: Seq<char>, pat: Seq<char>, i: int) -> Option<int>
    decreases s.len() + 1 - i,
{
    if i < 0 || i + pat.len() > s.len() {
        None
    } else if matches_at(s, pat, i) {
        Some(i)
    } else {
        find_from(s, pat, i + 1)
    }
}

/// The first occurrence of `pat` in `s` (as `str::find` reports it).
pub open spec fn find(s: Seq<char>, pat: Seq<char>) -> Option<int> {
    find_from(s, pat, 0)
}

/// A pattern holding a character that `s` lacks is not found in `s`, from
/// any position on.
pub proof fn lemma_find_needs_char(s: Seq<char>, pat: Seq<char>, k: int, i: int)
    requires
        0 <= k < pat.len(),
        !s.contains(pat[k]),
    ensures
        find_from(s, pat, i) is None,
    decreases s.len() + 1 - i,
{
    if !(i < 0 || i + pat.len() > s.len()) {
        if matches_at(s, pat, i) {
            assert(s.subrange(i, i + pat.len())[k] == s[i + k]);
            assert(s.contains(pat[k]));
        }
        lemma_find_needs_char(s, pat, k, i + 1);
    }
}

/// Whether `pat` occurs in `s` at absolute position `i` of the vector.
fn occurs_at(s: &Vec<char>, hi: usize, pat: &Vec<char>, i: usize) -> (b: bool)
    requires
        i <= hi <= s.len(),
    ensures
        b == (i + pat.len() <= hi && s@.subrange(i as int, i + pat.len()) == pat@),
{
    if pat.len() > hi - i {
        return false;
    }
    let mut k: usize = 0;
    while k < pat.len()
        invariant
            i + pat.len() <= hi <= s.len(),
            k <= pat.len(),
            forall|j: int| 0 <= j < k ==> s@[i + j] == pat@[j],
        decreases pat.len() - k,
    {
        if s[i + k] != pat[k] {
            assert(s@.subrange(i as int, i + pat.len())[k as int] != pat@[k as int]);
            return false;
        }
        k = k + 1;
    }
    assert(s@.subrange(i as int, i + pat.len()) =~= pat@);
    true
}

/// Whether the window `[a, b)` of `s` is exactly `pat`.
pub fn window_equals(s: &Vec<char>, a: usize, b: usize, pat: &Vec<char>) -> (r: bool)
    requires
        a <= b <= s.len(),
    ensures
        r == (window(s@, a as int, b as int) == pat@),
{
    if b - a != pat.len() {
        assert(window(s@, a as int, b as int).len() != pat@.len());
        return false;
    }
    let r = occurs_at(s, b, pat, a);
    assert(window(s@, a as int, b as int) =~= s@.subrange(a as int, a + pat.len()));
    r
}

/// Whether two string slices hold the same characters.
pub fn str_is(a: &str, b: &str) -> (r: bool)
    ensures
        r == (a@ == b@),
{
    let x = chars_of(a);
    let y = chars_of(b);
    let r = window_equals(&x, 0, x.len(), &y);
    assert(window(x@, 0, x.len() as int) =~= x@);
    r
}

/// Whether `lit` occurs in the window `[lo, hi)`.
pub fn contains_in(s: &Vec<char>, lo: usize, hi: usize, lit: &str) -> (r: bool)
    requires
        lo <= hi <= s.len(),
    ensures
        r == find(window(s@, lo as int, hi as int), lit@) is Some,
{
    let pat = chars_of(lit);
    find_in(s, lo, hi, &pat).is_some()
}

/// First occurrence of `pat` in the window `[lo, hi)`, as an absolute position.
pub fn find_in(s: &Vec<char>, lo: usize, hi: usize, pat: &Vec<char>) -> (r: Option<usize>)
    requires
        lo <= hi <= s.len(),
    ensures
        match r {
            Some(i) => lo <= i && i + pat.len() <= hi && find(window(s@, lo as int, hi as int), pat@)
                == Some(i - lo),
            None => find(window(s@, lo as int, hi as int), pat@) is None,
        },
{
    let ghost w = window(s@, lo as int, hi as int);
    if pat.len() == 0 {
        assert(w.subrange(0, 0) =~= pat@);
        return Some(lo);
    }
    let mut i = lo;
    while i <= hi
        invariant
            lo <= i <= hi + 1,
            hi <= s.len(),
            w == window(s@, lo as int, hi as int),
            pat.len() > 0,
            i <= hi ==> find(w, pat@) == find_from(w, pat@, i - lo),
            i > hi ==> find(w, pat@) is None,
        decreases hi + 1 - i,
    {
        if pat.len() > hi - i {
            return None;
        }
        let hit = occurs_at(s, hi, pat, i);
        proof {
            assert(w.subrange(i - lo, i - lo + pat.len()) =~= s@.subrange(i as int, i + pat.len()));
        }
        if hit {
            return Some(i);
        }
        i = i + 1;
    }
    None
}

/// What `String::from_utf8_lossy` makes of `bytes`: each invalid UTF-8
/// sequence is replaced by U+FFFD.
pub uninterp spec fn utf8_lossy(bytes: Seq<u8>) -> Seq<char>;

/// Decodes `bytes` as `String::from_utf8_lossy` does. Its contract claims
/// that the result is [`utf8_lossy`] of the bytes, and, as the function's
/// documentation states, that valid UTF-8 decodes to its own characters.
#[verifier::external_body]
pub(crate) fn decode_utf8_lossy(bytes: &[u8]) -> (text: String)
    ensures
        text@ == utf8_lossy(bytes@),
        vstd::utf8::valid_utf8(bytes@) ==> text@ == vstd::utf8::decode_utf8(bytes@),
{
    String::from_utf8_lossy(bytes).into_owned()
}

/// The characters of a string slice, in order.
pub fn chars_of(s: &str) -> (v: Vec<char>)
    ensures
        v@ == s@,
{
    let mut v: Vec<char> = Vec::new();
    for c in it: s.chars()
        invariant
            v@ == it.seq().take(it.index() as int),
    {
        v.push(c);
        assert(v@ =~= it.seq().take(it.index() + 1));
    }
    v
}


/// The whitespace-separated words of `s`, as `str::split_whitespace` yields them.
pub open spec fn tokens(s: Seq<char>) -> Seq<Seq<char>>
    decreases s.len(),
{
    if s.len() == 0 {
        seq![]
    } else if is_ws(s[0]) {
        tokens(s.skip(1))
    } else {
        let n = span(s, CharClass::Whitespace, false);
        proof {
            lemma_span_bounds(s, CharClass::Whitespace, false);
        }
        seq![s.take(n as int)] + tokens(s.skip(n as int))
    }
}

/// The texts of the windows `r` of `s`.
pub open spec fn texts(s: Seq<char>, r: Seq<(usize, usize)>) -> Seq<Seq<char>> {
    r.map_values(|p: (usize, usize)| window(s, p.0 as int, p.1 as int))
}

/// Boundaries of the whitespace-separated words of the window `[lo, hi)`.
pub fn tokens_in(s: &Vec<char>, lo: usize, hi: usize) -> (r: Vec<(usize, usize)>)
    requires
        lo <= hi <= s.len(),
    ensures
        texts(s@, r@) == tokens(window(s@, lo as int, hi as int)),
        forall|k: int| 0 <= k < r.len() ==> lo <= (#[trigger] r@[k]).0 <= r@[k].1 <= hi,
{
    let mut r: Vec<(usize, usize)> = Vec::new();
    let mut i = lo;
    while i < hi
        invariant
            lo <= i <= hi <= s.len(),
            tokens(window(s@, lo as int, hi as int)) == texts(s@, r@) + tokens(
                window(s@, i as int, hi as int),
            ),
            forall|k: int| 0 <= k < r.len() ==> lo <= (#[trigger] r@[k]).0 <= r@[k].1 <= hi,
        decreases hi - i,
    {
        let ghost w = window(s@, i as int, hi as int);
        if class_contains(CharClass::Whitespace, s[i]) {
            assert(w.skip(1) =~= window(s@, i + 1, hi as int));
            i = i + 1;
        } else {
            let e = scan(s, i, hi, CharClass::Whitespace, false);
            assert(w.take(e - i) =~= window(s@, i as int, e as int));
            assert(w.skip(e - i) =~= window(s@, e as int, hi as int));
            let ghost before = r@;
            r.push((i, e));
            assert(texts(s@, r@) =~= texts(s@, before) + seq![window(s@, i as int, e as int)]);
            i = e;
        }
    }
    assert(window(s@, i as int, hi as int) =~= Seq::<char>::empty());
    assert(texts(s@, r@) + tokens(window(s@, i as int, hi as int)) =~= texts(s@, r@));
    r
}

/// The pieces of `s` between line feeds. These are the lines that
/// `str::lines` yields, except that a carriage return before a line feed is
/// kept and a final empty piece is kept; neither carries a word.
pub open spec fn segments(s: Seq<char>) -> Seq<Seq<char>>
    decreases s.len(),
{
    let n = span(s, CharClass::Newline, false);
    if n >= s.len() {
        seq![s]
    } else {
        seq![s.take(n as int)] + segments(s.skip(n as int + 1))
    }
}

/// Boundaries of the line-feed separated pieces of the window `[lo, hi)`.
pub fn segments_in(s: &Vec<char>, lo: usize, hi: usize) -> (r: Vec<(usize, usize)>)
    requires
        lo <= hi <= s.len(),
    ensures
        texts(s@, r@) == segments(window(s@, lo as int, hi as int)),
        forall|k: int| 0 <= k < r.len() ==> lo <= (#[trigger] r@[k]).0 <= r@[k].1 <= hi,
{
    let mut r: Vec<(usize, usize)> = Vec::new();
    let mut i = lo;
    loop
        invariant
            lo <= i <= hi <= s.len(),
            segments(window(s@, lo as int, hi as int)) == texts(s@, r@) + segments(
                window(s@, i as int, hi as int),
            ),
            forall|k: int| 0 <= k < r.len() ==> lo <= (#[trigger] r@[k]).0 <= r@[k].1 <= hi,
        decreases hi - i,
    {
        let ghost w = window(s@, i as int, hi as int);
        let e = scan(s, i, hi, CharClass::Newline, false);
        let ghost before = r@;
        if e >= hi {
            r.push((i, hi));
            assert(texts(s@, r@) =~= texts(s@, before) + seq![w]);
            return r;
        }
        assert(w.take(e - i) =~= window(s@, i as int, e as int));
        assert(w.skip(e - i + 1) =~= window(s@, e + 1, hi as int));
        r.push((i, e));
        assert(texts(s@, r@) =~= texts(s@, before) + seq![window(s@, i as int, e as int)]);
        i = e + 1;
    }
}

/// `s` without its leading whitespace.
pub open spec fn trim_start(s: Seq<char>) -> Seq<char> {
    s.skip(span(s, CharClass::Whitespace, true) as int)
}

/// `s` without its leading and trailing whitespace.
pub open spec fn trim(s: Seq<char>) -> Seq<char> {
    let t = trim_start(s);
    t.take(t.len() - rspan(t, CharClass::Whitespace, true))
}

/// Bounds of the window `[lo, hi)` with surrounding whitespace removed.
pub fn trim_in(s: &Vec<char>, lo: usize, hi: usize) -> (r: (usize, usize))
    requires
        lo <= hi <= s.len(),
    ensures
        lo <= r.0 <= r.1 <= hi,
        window(s@, r.0 as int, r.1 as int) == trim(window(s@, lo as int, hi as int)),
        r.0 == lo + span(window(s@, lo as int, hi as int), CharClass::Whitespace, true),
{
    let a = scan(s, lo, hi, CharClass::Whitespace, true);
    let b = rscan(s, a, hi, CharClass::Whitespace, true);
    proof {
        let w = window(s@, lo as int, hi as int);
        assert(trim_start(w) =~= window(s@, a as int, hi as int));
        assert(window(s@, a as int, b as int) =~= trim_start(w).take(
            trim_start(w).len() - rspan(trim_start(w), CharClass::Whitespace, true),
        ));
    }
    (a, b)
}

/// Value of an ASCII digit.
pub open spec fn digit_value(c: char) -> nat {
    (c as int - '0' as int) as nat
}

/// Value of a string of decimal digits (0 when empty).
pub open spec fn digits_value(d: Seq<char>) -> nat
    decreases d.len(),
{
    if d.len() == 0 {
        0
    } else {
        digits_value(d.drop_last()) * 10 + digit_value(d.last())
    }
}

/// Every character of `d` is in class `cls`.
pub open spec fn all_in(d: Seq<char>, cls: CharClass) -> bool {
    forall|i: int| 0 <= i < d.len() ==> class_has(cls, #[trigger] d[i])
}

pub open spec fn saturate(n: nat) -> u64 {
    if n <= u64::MAX {
        n as u64
    } else {
        u64::MAX
    }
}

/// A string of decimal digits read as an unsigned 64-bit integer: `None`
/// when it is empty, holds another character, or does not fit.
pub open spec fn digits_to_u64(t: Seq<char>) -> Option<u64> {
    if t.len() > 0 && all_in(t, CharClass::Digit) && digits_value(t) <= u64::MAX {
        Some(digits_value(t) as u64)
    } else {
        None
    }
}

/// A decimal number as read from text: sign, integer part (saturated at
/// `u64::MAX`), the first three fractional digits as thousandths, and whether
/// every further fractional digit is zero.
#[derive(Clone, Copy, PartialEq, Eq, Debug, Structural)]
pub struct Decimal {
    pub negative: bool,
    pub whole: u64,
    pub milli: u64,
    pub exact_milli: bool,
}

/// The `k`-th character of `f` as a digit, 0 past its end.
pub open spec fn frac_digit(f: Seq<char>, k: int) -> nat {
    if k < f.len() {
        digit_value(f[k])
    } else {
        0
    }
}

/// `t` without a leading sign.
pub open spec fn unsigned_body(t: Seq<char>) -> Seq<char> {
    if t.len() > 0 && (t[0] == '-' || t[0] == '+') {
        t.skip(1)
    } else {
        t
    }
}

/// The characters of a decimal literal before its decimal point.
pub open spec fn int_digits(t: Seq<char>) -> Seq<char> {
    let b = unsigned_body(t);
    b.take(span(b, CharClass::Dot, false) as int)
}

/// The characters of a decimal literal after its decimal point.
pub open spec fn frac_digits(t: Seq<char>) -> Seq<char> {
    let b = unsigned_body(t);
    let p = span(b, CharClass::Dot, false) as int;
    if p < b.len() {
        b.skip(p + 1)
    } else {
        Seq::empty()
    }
}

/// Every character of `f` from position `k` on is `'0'`.
pub open spec fn zero_from(f: Seq<char>, k: int) -> bool {
    forall|i: int| k <= i < f.len() ==> #[trigger] f[i] == '0'
}

/// The first three fractional digits `f` as thousandths.
pub open spec fn thousandths(f: Seq<char>) -> nat {
    frac_digit(f, 0) * 100 + frac_digit(f, 1) * 10 + frac_digit(f, 2)
}

/// A decimal literal `[+-]digits[.digits]` (at least one digit, as
/// `f64::from_str` takes it without exponent), read as a [`Decimal`].
pub open spec fn parse_decimal(t: Seq<char>) -> Option<Decimal> {
    let ip = int_digits(t);
    let fp = frac_digits(t);
    if all_in(ip, CharClass::Digit) && all_in(fp, CharClass::Digit) && ip.len() + fp.len() > 0 {
        Some(
            Decimal {
                negative: t.len() > 0 && t[0] == '-',
                whole: saturate(digits_value(ip)),
                milli: thousandths(fp) as u64,
                exact_milli: zero_from(fp, 3),
            },
        )
    } else {
        None
    }
}

fn digit_of(c: char) -> (d: u64)
    requires
        is_digit(c),
    ensures
        d == digit_value(c),
        d < 10,
{
    (c as u32 - '0' as u32) as u64
}

/// Whether `[lo, hi)` holds only digits, and their value saturated at `u64::MAX`.
fn read_digits(s: &Vec<char>, lo: usize, hi: usize) -> (r: (bool, u64))
    requires
        lo <= hi <= s.len(),
    ensures
        r.0 == all_in(window(s@, lo as int, hi as int), CharClass::Digit),
        r.0 ==> r.1 == saturate(digits_value(window(s@, lo as int, hi as int))),
{
    let mut v: u64 = 0;
    let mut saturated = false;
    let mut i = lo;
    while i < hi
        invariant
            lo <= i <= hi <= s.len(),
            all_in(window(s@, lo as int, i as int), CharClass::Digit),
            !saturated ==> v == digits_value(window(s@, lo as int, i as int)),
            saturated ==> v == u64::MAX && digits_value(window(s@, lo as int, i as int)) > u64::MAX,
        decreases hi - i,
    {
        let c = s[i];
        if !class_contains(CharClass::Digit, c) {
            assert(window(s@, lo as int, hi as int)[i - lo] == c);
            return (false, 0);
        }
        let d = digit_of(c);
        let ghost prev = window(s@, lo as int, i as int);
        assert(window(s@, lo as int, i + 1).drop_last() =~= prev);
        assert(window(s@, lo as int, i + 1).last() == c);
        if !saturated {
            match v.checked_mul(10) {
                Some(t) => match t.checked_add(d) {
                    Some(u) => {
                        v = u;
                    },
                    None => {
                        saturated = true;
                        v = u64::MAX;
                    },
                },
                None => {
                    saturated = true;
                    v = u64::MAX;
                },
            }
        }
        i = i + 1;
    }
    (true, v)
}

/// The window `[lo, hi)` read as [`digits_to_u64`] does.
pub fn parse_u64_in(s: &Vec<char>, lo: usize, hi: usize) -> (r: Option<u64>)
    requires
        lo <= hi <= s.len(),
    ensures
        r == digits_to_u64(window(s@, lo as int, hi as int)),
{
    let (all_digits, _) = read_digits(s, lo, hi);
    if !all_digits || lo == hi {
        return None;
    }
    let (fits, v) = read_digits_exact(s, lo, hi);
    if fits {
        Some(v)
    } else {
        None
    }
}

/// Whether the digits of `[lo, hi)` have a value that fits in `u64`, and that value.
fn read_digits_exact(s: &Vec<char>, lo: usize, hi: usize) -> (r: (bool, u64))
    requires
        lo <= hi <= s.len(),
        all_in(window(s@, lo as int, hi as int), CharClass::Digit),
    ensures
        r.0 == (digits_value(window(s@, lo as int, hi as int)) <= u64::MAX),
        r.0 ==> r.1 == digits_value(window(s@, lo as int, hi as int)),
{
    let mut v: u64 = 0;
    let mut i = lo;
    while i < hi
        invariant
            lo <= i <= hi <= s.len(),
            all_in(window(s@, lo as int, hi as int), CharClass::Digit),
            v == digits_value(window(s@, lo as int, i as int)),
        decreases hi - i,
    {
        let c = s[i];
        assert(window(s@, lo as int, hi as int)[i - lo] == c);
        let d = digit_of(c);
        assert(window(s@, lo as int, i + 1).drop_last() =~= window(s@, lo as int, i as int));
        assert(window(s@, lo as int, i + 1).last() == c);
        match v.checked_mul(10) {
            Some(t) => match t.checked_add(d) {
                Some(u) => {
                    v = u;
                },
                None => {
                    proof {
                        lemma_digits_value_grows(s@, lo as int, i + 1, hi as int);
                    }
                    return (false, 0);
                },
            },
            None => {
                proof {
                    lemma_digits_value_grows(s@, lo as int, i + 1, hi as int);
                }
                return (false, 0);
            },
        }
        i = i + 1;
    }
    (true, v)
}

/// A longer run of digits is worth at least as much as its prefix.
pub proof fn lemma_digits_value_grows(s: Seq<char>, lo: int, j: int, hi: int)
    requires
        0 <= lo <= j <= hi <= s.len(),
    ensures
        digits_value(window(s, lo, j)) <= digits_value(window(s, lo, hi)),
    decreases hi - j,
{
    if j < hi {
        lemma_digits_value_grows(s, lo, j + 1, hi);
        assert(window(s, lo, j + 1).drop_last() =~= window(s, lo, j));
    }
}

/// Thousandths and exactness of the fractional digits in `[lo, hi)`.
fn read_fraction(s: &Vec<char>, lo: usize, hi: usize) -> (r: (u64, bool))
    requires
        lo <= hi <= s.len(),
        all_in(window(s@, lo as int, hi as int), CharClass::Digit),
    ensures
        r.0 == thousandths(window(s@, lo as int, hi as int)),
        r.1 == zero_from(window(s@, lo as int, hi as int), 3),
{
    let ghost f = window(s@, lo as int, hi as int);
    let n = hi - lo;
    let d0 = if n > 0 {
        assert(f[0] == s@[lo as int] && class_has(CharClass::Digit, f[0]));
        digit_of(s[lo])
    } else {
        0
    };
    let d1 = if n > 1 {
        assert(f[1] == s@[lo + 1] && class_has(CharClass::Digit, f[1]));
        digit_of(s[lo + 1])
    } else {
        0
    };
    let d2 = if n > 2 {
        assert(f[2] == s@[lo + 2] && class_has(CharClass::Digit, f[2]));
        digit_of(s[lo + 2])
    } else {
        0
    };
    let mut exact = true;
    let mut j: usize = 3;
    while j < n
        invariant
            3 <= j,
            lo + n == hi,
            hi <= s.len(),
            f == window(s@, lo as int, hi as int),
            f.len() == n,
            exact == (forall|i: int| 3 <= i < j && i < n ==> #[trigger] f[i] == '0'),
        decreases n - j,
    {
        assert(f[j as int] == s@[lo + j]);
        if s[lo + j] != '0' {
            exact = false;
        }
        j = j + 1;
    }
    (d0 * 100 + d1 * 10 + d2, exact)
}

/// The window `[lo, hi)` read as [`parse_decimal`] does.
pub fn parse_decimal_in(s: &Vec<char>, lo: usize, hi: usize) -> (r: Option<Decimal>)
    requires
        lo <= hi <= s.len(),
    ensures
        r == parse_decimal(window(s@, lo as int, hi as int)),
{
    let ghost t = window(s@, lo as int, hi as int);
    let signed = lo < hi && (s[lo] == '-' || s[lo] == '+');
    let negative = lo < hi && s[lo] == '-';
    let body_lo = if signed {
        lo + 1
    } else {
        lo
    };
    assert(unsigned_body(t) =~= window(s@, body_lo as int, hi as int));
    let p = scan(s, body_lo, hi, CharClass::Dot, false);
    let frac_lo = if p < hi {
        p + 1
    } else {
        hi
    };
    assert(int_digits(t) =~= window(s@, body_lo as int, p as int));
    assert(frac_digits(t) =~= window(s@, frac_lo as int, hi as int));
    let (int_ok, whole) = read_digits(s, body_lo, p);
    let (frac_ok, _) = read_digits(s, frac_lo, hi);
    if !(int_ok && frac_ok && (p > body_lo || hi > frac_lo)) {
        return None;
    }
    let (milli, exact) = read_fraction(s, frac_lo, hi);
    Some(Decimal { negative, whole, milli, exact_milli: exact })
}

/// Decimal digit character for `d < 10`.
pub open spec fn digit_char(d: nat) -> char {
    if d == 0 {
        '0'
    } else if d == 1 {
        '1'
    } else if d == 2 {
        '2'
    } else if d == 3 {
        '3'
    } else if d == 4 {
        '4'
    } else if d == 5 {
        '5'
    } else if d == 6 {
        '6'
    } else if d == 7 {
        '7'
    } else if d == 8 {
        '8'
    } else {
        '9'
    }
}

/// Decimal representation of `n`, as `{}` formats an unsigned integer.
pub open spec fn decimal_digits(n: nat) -> Seq<char>
    decreases n,
{
    if n < 10 {
        seq![digit_char(n)]
    } else {
        decimal_digits(n / 10).push(digit_char(n % 10))
    }
}

fn digit_text(d: u64) -> (t: &'static str)
    requires
        d < 10,
    ensures
        t@ == seq![digit_char(d as nat)],
{
    if d == 0 {
        proof {
            reveal_strlit("0");
        }
        assert("0"@ =~= seq!['0']);
        "0"
    } else if d == 1 {
        proof {
            reveal_strlit("1");
        }
        assert("1"@ =~= seq!['1']);
        "1"
    } else if d == 2 {
        proof {
            reveal_strlit("2");
        }
        assert("2"@ =~= seq!['2']);
        "2"
    } else if d == 3 {
        proof {
            reveal_strlit("3");
        }
        assert("3"@ =~= seq!['3']);
        "3"
    } else if d == 4 {
        proof {
            reveal_strlit("4");
        }
        assert("4"@ =~= seq!['4']);
        "4"
    } else if d == 5 {
        proof {
            reveal_strlit("5");
        }
        assert("5"@ =~= seq!['5']);
        "5"
    } else if d == 6 {
        proof {
            reveal_strlit("6");
        }
        assert("6"@ =~= seq!['6']);
        "6"
    } else if d == 7 {
        proof {
            reveal_strlit("7");
        }
        assert("7"@ =~= seq!['7']);
        "7"
    } else if d == 8 {
        proof {
            reveal_strlit("8");
        }
        assert("8"@ =~= seq!['8']);
        "8"
    } else {
        proof {
            reveal_strlit("9");
        }
        assert("9"@ =~= seq!['9']);
        "9"
    }
}

/// Append the decimal representation of `n` to `out`.
pub fn push_decimal(out: &mut String, n: u64)
    ensures
        final(out)@ == old(out)@ + decimal_digits(n as nat),
    decreases n,
{
    if n >= 10 {
        push_decimal(out, n / 10);
    }
    let ghost mid = out@;
    out.append(digit_text(n % 10));
    proof {
        if n >= 10 {
            assert(out@ =~= old(out)@ + decimal_digits(n as nat));
        } else {
            assert(out@ =~= old(out)@ + decimal_digits(n as nat));
        }
    }
}

/// `v / scale` rounded to the nearest integer, ties to even: how `{:.0}`
/// rounds a value that is exactly `v / scale`.
pub open spec fn round_half_even(v: nat, scale: nat) -> nat {
    let q = v / scale;
    let r = v % scale;
    if 2 * r > scale || (2 * r == scale && q % 2 == 1) {
        q + 1
    } else {
        q
    }
}

/// `v / scale` written with no decimals (`{:.0}`): a minus sign for a
/// negative value, then its magnitude rounded half to even.
pub open spec fn whole_text(v: int, scale: nat) -> Seq<char> {
    let mag = round_half_even((if v < 0 {
        -v
    } else {
        v
    }) as nat, scale);
    if v < 0 {
        seq!['-'] + decimal_digits(mag)
    } else {
        decimal_digits(mag)
    }
}

/// `v / scale` rounded half to even, for unsigned operands.
pub fn round_ratio(v: u128, scale: u128) -> (r: u128)
    requires
        scale > 0,
    ensures
        r == round_half_even(v as nat, scale as nat),
        r <= v,
{
    let q = v / scale;
    let r = v % scale;
    assert(q * scale + r == v && r < scale) by (nonlinear_arith)
        requires
            scale > 0,
            q == v / scale,
            r == v % scale,
    ;
    if r > scale - r || (r == scale - r && q % 2 == 1) {
        assert(q + 1 <= v) by (nonlinear_arith)
            requires
                q * scale + r == v,
                r > 0,
                scale > 0,
        ;
        q + 1
    } else {
        assert(q <= v) by (nonlinear_arith)
            requires
                q * scale + r == v,
                scale > 0,
                r >= 0,
        ;
        q
    }
}

/// Append `v / scale` written with no decimals, as [`whole_text`] says.
pub fn push_fixed_whole(out: &mut String, v: i64, scale: u64)
    requires
        scale > 0,
    ensures
        final(out)@ == old(out)@ + whole_text(v as int, scale as nat),
{
    let wide = v as i128;
    let mag: u128 = if wide < 0 {
        (-wide) as u128
    } else {
        wide as u128
    };
    let rounded = round_ratio(mag, scale as u128);
    assert(rounded <= mag);
    if v < 0 {
        proof {
            reveal_strlit("-");
        }
        out.append("-");
    }
    let ghost mid = out@;
    push_decimal(out, rounded as u64);
    proof {
        if v < 0 {
            assert("-"@ =~= seq!['-']);
            assert(out@ =~= old(out)@ + whole_text(v as int, scale as nat));
        }
    }
}

} // verus!
