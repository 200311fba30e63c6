//! Reading the JSON that `smartctl -j` prints.
//!
//! The JSON is read from its decoded characters with a handful of targeted
//! searches rather than a full parser, as only a few fields are needed.

use vstd::prelude::*;
use vstd::string::*;
use crate::temperature::{decimal_temperature, raw_temperature, temperature_from_decimal, temperature_from_raw};
use crate::text::{
    chars_of, contains_in, decode_utf8_lossy, utf8_lossy, find, find_in, parse_decimal,
    parse_decimal_in, parse_u64_in, scan, digits_to_u64, span, trim, trim_in, trim_start, window,
    CharClass, Decimal, frac_digit, frac_digits, class_has,
};
use super::{first_some, opt_device_view, SmartDevice, SmartDeviceView, SmartHealth};

verus! {

broadcast use vstd::std_specs::vec::group_vec_axioms;

/// A JSON key between quotes.
pub open spec fn quoted(key: Seq<char>) -> Seq<char> {
    "\""@ + key + "\""@
}

/// The text that follows the first `"key"`, the next `:` after it, and any
/// whitespace.
pub open spec fn value_after_key(json: Seq<char>, key: Seq<char>) -> Option<Seq<char>> {
    match find(json, quoted(key)) {
        None => None,
        Some(start) => {
            let rest = json.skip(start + quoted(key).len());
            match find(rest, seq![':']) {
                None => None,
                Some(c) => Some(trim_start(rest.skip(c + 1))),
            }
        },
    }
}

/// The number that follows the first `"key":`: the run of digits, `.` and
/// `-` there, read as a decimal literal.
pub open spec fn json_number(json: Seq<char>, key: Seq<char>) -> Option<Decimal> {
    match value_after_key(json, key) {
        None => None,
        Some(v) => {
            let end = span(v, CharClass::JsonNumber, true);
            if end == 0 {
                None
            } else {
                parse_decimal(v.take(end as int))
            }
        },
    }
}

/// Position of the `}` that closes the first JSON object of `s`, scanning
/// from position `i` with `depth` objects open and tracking string literals
/// and their escapes; `None` when a `}` closes nothing or none closes it.
pub open spec fn balanced_end(
    s: Seq<char>,
    i: int,
    depth: nat,
    in_string: bool,
    escaped: bool,
) -> Option<int>
    decreases s.len() - i,
{
    if i < 0 || i >= s.len() {
        None
    } else {
        let c = s[i];
        if in_string {
            if escaped {
                balanced_end(s, i + 1, depth, true, false)
            } else if c == '\\' {
                balanced_end(s, i + 1, depth, true, true)
            } else if c == '"' {
                balanced_end(s, i + 1, depth, false, false)
            } else {
                balanced_end(s, i + 1, depth, true, false)
            }
        } else if c == '"' {
            balanced_end(s, i + 1, depth, true, false)
        } else if c == '{' {
            balanced_end(s, i + 1, depth + 1, false, false)
        } else if c == '}' {
            if depth == 0 {
                None
            } else if depth == 1 {
                Some(i)
            } else {
                balanced_end(s, i + 1, (depth - 1) as nat, false, false)
            }
        } else {
            balanced_end(s, i + 1, depth, false, false)
        }
    }
}

/// The first balanced JSON object at the start of `s`, braces included.
pub open spec fn balanced_object(s: Seq<char>) -> Option<Seq<char>> {
    match balanced_end(s, 0, 0, false, false) {
        Some(e) => Some(s.take(e + 1)),
        None => None,
    }
}

/// The number under `number_key` inside the object that follows the first
/// `"object_key":`.
pub open spec fn object_number(json: Seq<char>, object_key: Seq<char>, number_key: Seq<char>) -> Option<
    Decimal,
> {
    match value_after_key(json, object_key) {
        None => None,
        Some(v) => if v.len() > 0 && v[0] == '{' {
            match balanced_object(v) {
                Some(o) => json_number(o, number_key),
                None => None,
            }
        } else {
            None
        },
    }
}

/// Builds `a + b + c` as characters.
fn pattern3(a: &str, b: &str, c: &str) -> (v: Vec<char>)
    ensures
        v@ == a@ + b@ + c@,
{
    let mut v = chars_of(a);
    let mut w = chars_of(b);
    let mut x = chars_of(c);
    v.append(&mut w);
    v.append(&mut x);
    v
}

/// Start of the text that [`value_after_key`] gives for the window `[lo, hi)`;
/// that text runs to `hi`.
fn value_after_key_in(s: &Vec<char>, lo: usize, hi: usize, key: &str) -> (r: Option<usize>)
    requires
        lo <= hi <= s.len(),
    ensures
        match r {
            Some(v) => lo <= v <= hi && value_after_key(window(s@, lo as int, hi as int), key@)
                == Some(window(s@, v as int, hi as int)),
            None => value_after_key(window(s@, lo as int, hi as int), key@) is None,
        },
{
    let ghost w = window(s@, lo as int, hi as int);
    let pat = pattern3("\"", key, "\"");
    let start = match find_in(s, lo, hi, &pat) {
        Some(i) => i,
        None => {
            return None;
        },
    };
    let after = start + pat.len();
    assert(w.skip(start - lo + quoted(key@).len()) =~= window(s@, after as int, hi as int));
    let mut colon: Vec<char> = Vec::new();
    colon.push(':');
    assert(colon@ =~= seq![':']);
    let c = match find_in(s, after, hi, &colon) {
        Some(c) => c,
        None => {
            return None;
        },
    };
    assert(window(s@, after as int, hi as int).skip(c - after + 1) =~= window(
        s@,
        c + 1,
        hi as int,
    ));
    let v = scan(s, c + 1, hi, CharClass::Whitespace, true);
    assert(trim_start(window(s@, c + 1, hi as int)) =~= window(s@, v as int, hi as int));
    Some(v)
}

/// End of the balanced JSON object that opens the window `[lo, hi)`: the
/// position of the `}` that [`balanced_end`] finds.
fn balanced_json_object(s: &Vec<char>, lo: usize, hi: usize) -> (r: Option<usize>)
    requires
        lo <= hi <= s.len(),
    ensures
        match r {
            Some(e) => lo <= e < hi && balanced_end(window(s@, lo as int, hi as int), 0, 0, false, false)
                == Some(e - lo),
            None => balanced_end(window(s@, lo as int, hi as int), 0, 0, false, false) is None,
        },
{
    let ghost w = window(s@, lo as int, hi as int);
    let mut depth: usize = 0;
    let mut in_string = false;
    let mut escaped = false;
    let mut i = lo;
    while i < hi
        invariant
            lo <= i <= hi <= s.len(),
            w == window(s@, lo as int, hi as int),
            depth <= i - lo,
            !in_string ==> !escaped,
            balanced_end(w, 0, 0, false, false) == balanced_end(
                w,
                i - lo,
                depth as nat,
                in_string,
                escaped,
            ),
        decreases hi - i,
    {
        let c = s[i];
        assert(w[i - lo] == c);
        if in_string {
            if escaped {
                escaped = false;
            } else if c == '\\' {
                escaped = true;
            } else if c == '"' {
                in_string = false;
            }
        } else if c == '"' {
            in_string = true;
        } else if c == '{' {
            depth = depth + 1;
        } else if c == '}' {
            if depth == 0 {
                return None;
            }
            depth = depth - 1;
            if depth == 0 {
                return Some(i);
            }
        }
        i = i + 1;
    }
    None
}

impl SmartHealth {
    /// The number that follows the first `"key":` in the window `[lo, hi)`
    /// of `json` (see [`json_number`]).
    pub fn extract_json_number(json: &Vec<char>, lo: usize, hi: usize, key: &str) -> (r: Option<
        Decimal,
    >)
        requires
            lo <= hi <= json.len(),
        ensures
            r == json_number(window(json@, lo as int, hi as int), key@),
    {
        let v = match value_after_key_in(json, lo, hi, key) {
            Some(v) => v,
            None => {
                return None;
            },
        };
        let end = scan(json, v, hi, CharClass::JsonNumber, true);
        if end == v {
            return None;
        }
        assert(window(json@, v as int, hi as int).take(end - v) =~= window(
            json@,
            v as int,
            end as int,
        ));
        parse_decimal_in(json, v, end)
    }

    /// The number under `number_key` in the object under `object_key` in the
    /// window `[lo, hi)` of `json` (see [`object_number`]).
    pub fn extract_object_number(
        json: &Vec<char>,
        lo: usize,
        hi: usize,
        object_key: &str,
        number_key: &str,
    ) -> (r: Option<Decimal>)
        requires
            lo <= hi <= json.len(),
        ensures
            r == object_number(window(json@, lo as int, hi as int), object_key@, number_key@),
    {
        let v = match value_after_key_in(json, lo, hi, object_key) {
            Some(v) => v,
            None => {
                return None;
            },
        };
        let ghost val = window(json@, v as int, hi as int);
        if !(v < hi && json[v] == '{') {
            return None;
        }
        assert(val[0] == json@[v as int]);
        let e = match balanced_json_object(json, v, hi) {
            Some(e) => e,
            None => {
                return None;
            },
        };
        assert(val.take(e - v + 1) =~= window(json@, v as int, e + 1));
        Self::extract_json_number(json, v, e + 1, number_key)
    }
}

/// The pattern that opens a SMART attribute entry named `attr`.
pub open spec fn name_pattern(attr: Seq<char>) -> Seq<char> {
    "\"name\": \""@ + attr + "\""@
}

/// The entry of the SMART attribute named `attr`: from the first
/// `"name": "attr"` up to the next `"name": ` after it, or to the end.
pub open spec fn attribute_section(json: Seq<char>, attr: Seq<char>) -> Option<Seq<char>> {
    match find(json, name_pattern(attr)) {
        None => None,
        Some(start) => {
            let section = json.skip(start);
            let next = match find(section.skip(1), "\"name\": "@) {
                Some(i) => i + 1,
                None => section.len() as int,
            };
            Some(section.take(next))
        },
    }
}

/// The raw value of the SMART attribute named `attr`: after the first
/// `"name": "attr"`, the first `"raw": {`, then the first `"value": `, the
/// digits that follow, read as a `u64`.
pub open spec fn attribute_raw(json: Seq<char>, attr: Seq<char>) -> Option<u64> {
    match find(json, name_pattern(attr)) {
        None => None,
        Some(start) => {
            let section = json.skip(start);
            match find(section, "\"raw\": {"@) {
                None => None,
                Some(r) => {
                    let raw = section.skip(r);
                    match find(raw, "\"value\": "@) {
                        None => None,
                        Some(v) => {
                            let rest = raw.skip(v + "\"value\": "@.len());
                            digits_to_u64(rest.take(span(rest, CharClass::Digit, true) as int))
                        },
                    }
                },
            }
        },
    }
}

/// The first number inside free text: from the first digit or sign, the run
/// of digits, `.`, `-` and `+`, read as a decimal literal.
pub open spec fn first_number(text: Seq<char>) -> Option<Decimal> {
    let start = span(text, CharClass::NumberStart, false);
    if start >= text.len() {
        None
    } else {
        let rest = text.skip(start as int);
        parse_decimal(rest.take(span(rest, CharClass::TextNumber, true) as int))
    }
}

/// The temperature in the `"string"` of the `"raw"` member of an attribute
/// entry, such as `"41 (Min/Max 20/54)"`: the first number of the quoted
/// text, when plausible.
pub open spec fn raw_string_temperature(section: Seq<char>) -> Option<i64> {
    match find(section, "\"raw\""@) {
        None => None,
        Some(r) => {
            let raw = section.skip(r);
            match find(raw, "\"string\""@) {
                None => None,
                Some(k) => {
                    let rest = raw.skip(k + "\"string\""@.len());
                    match find(rest, seq![':']) {
                        None => None,
                        Some(c) => {
                            let v = trim_start(rest.skip(c + 1));
                            if v.len() > 0 && v[0] == '"' {
                                let body = v.skip(1);
                                match find(body, "\""@) {
                                    None => None,
                                    Some(q) => match first_number(trim(body.take(q))) {
                                        Some(d) => decimal_temperature(d),
                                        None => None,
                                    },
                                }
                            } else {
                                None
                            }
                        },
                    }
                },
            }
        },
    }
}

/// The temperature of the SMART attribute named `attr`: the one in its raw
/// string, otherwise its raw value taken as whole degrees, when plausible.
pub open spec fn attribute_temperature(json: Seq<char>, attr: Seq<char>) -> Option<i64> {
    match attribute_section(json, attr) {
        None => None,
        Some(section) => first_some(
            raw_string_temperature(section),
            match attribute_raw(section, attr) {
                Some(raw) => raw_temperature(raw),
                None => None,
            },
        ),
    }
}

/// The drive temperature that `smartctl -j` reports: `"temperature":
/// {"current": ..}` or a plain `"temperature": ..` when plausible, otherwise
/// the first of the attributes `Temperature_Celsius`,
/// `Airflow_Temperature_Cel` and `Temperature_Internal` that gives one.
pub open spec fn json_temperature(json: Seq<char>) -> Option<i64> {
    let top = first_some(
        object_number(json, "temperature"@, "current"@),
        json_number(json, "temperature"@),
    );
    let top_temperature = match top {
        Some(d) => decimal_temperature(d),
        None => None,
    };
    first_some(
        top_temperature,
        first_some(
            attribute_temperature(json, "Temperature_Celsius"@),
            first_some(
                attribute_temperature(json, "Airflow_Temperature_Cel"@),
                attribute_temperature(json, "Temperature_Internal"@),
            ),
        ),
    )
}

/// A decimal literal has at most 999 thousandths.
pub proof fn lemma_parse_decimal_milli(t: Seq<char>)
    ensures
        parse_decimal(t) matches Some(d) ==> d.milli < 1000,
{
    if let Some(d) = parse_decimal(t) {
        let fp = frac_digits(t);
        assert forall|k: int| 0 <= k < 3 implies frac_digit(fp, k) <= 9 by {
            if k < fp.len() {
                assert(class_has(CharClass::Digit, fp[k]));
            }
        }
    }
}

impl SmartHealth {
    /// The entry of the attribute `attr` in the window `[lo, hi)` of `json`
    /// (see [`attribute_section`]), as its bounds.
    pub fn smart_attribute_section(json: &Vec<char>, lo: usize, hi: usize, attr: &str) -> (r:
        Option<(usize, usize)>)
        requires
            lo <= hi <= json.len(),
        ensures
            match r {
                Some((a, b)) => lo <= a <= b <= hi && attribute_section(
                    window(json@, lo as int, hi as int),
                    attr@,
                ) == Some(window(json@, a as int, b as int)),
                None => attribute_section(window(json@, lo as int, hi as int), attr@) is None,
            },
    {
        let ghost w = window(json@, lo as int, hi as int);
        let pat = pattern3("\"name\": \"", attr, "\"");
        let start = match find_in(json, lo, hi, &pat) {
            Some(i) => i,
            None => {
                return None;
            },
        };
        let ghost section = w.skip(start - lo);
        assert(section =~= window(json@, start as int, hi as int));
        assert(pat@.len() > 0) by {
            assert(pat@ =~= name_pattern(attr@));
            reveal_strlit("\"name\": \"");
        }
        let next_pat = chars_of("\"name\": ");
        assert(section.skip(1) =~= window(json@, start + 1, hi as int));
        let end = match find_in(json, start + 1, hi, &next_pat) {
            Some(i) => i,
            None => hi,
        };
        assert(section.take(end - start) =~= window(json@, start as int, end as int));
        Some((start, end))
    }

    /// Raw value of the attribute `attr` in the window `[lo, hi)` of `json`
    /// (see [`attribute_raw`]).
    pub fn extract_smart_attribute_raw(json: &Vec<char>, lo: usize, hi: usize, attr: &str) -> (r:
        Option<u64>)
        requires
            lo <= hi <= json.len(),
        ensures
            r == attribute_raw(window(json@, lo as int, hi as int), attr@),
    {
        let ghost w = window(json@, lo as int, hi as int);
        let pat = pattern3("\"name\": \"", attr, "\"");
        let start = match find_in(json, lo, hi, &pat) {
            Some(i) => i,
            None => {
                return None;
            },
        };
        assert(w.skip(start - lo) =~= window(json@, start as int, hi as int));
        let raw_pat = chars_of("\"raw\": {");
        let r = match find_in(json, start, hi, &raw_pat) {
            Some(r) => r,
            None => {
                return None;
            },
        };
        assert(window(json@, start as int, hi as int).skip(r - start) =~= window(
            json@,
            r as int,
            hi as int,
        ));
        let value_pat = chars_of("\"value\": ");
        let v = match find_in(json, r, hi, &value_pat) {
            Some(v) => v,
            None => {
                return None;
            },
        };
        let after = v + value_pat.len();
        assert(window(json@, r as int, hi as int).skip(v - r + "\"value\": "@.len()) =~= window(
            json@,
            after as int,
            hi as int,
        ));
        let end = scan(json, after, hi, CharClass::Digit, true);
        assert(window(json@, after as int, hi as int).take(end - after) =~= window(
            json@,
            after as int,
            end as int,
        ));
        parse_u64_in(json, after, end)
    }

    /// The first number inside the window `[lo, hi)` of `text` (see
    /// [`first_number`]).
    pub fn first_number(text: &Vec<char>, lo: usize, hi: usize) -> (r: Option<Decimal>)
        requires
            lo <= hi <= text.len(),
        ensures
            r == first_number(window(text@, lo as int, hi as int)),
    {
        let start = scan(text, lo, hi, CharClass::NumberStart, false);
        if start >= hi {
            return None;
        }
        let end = scan(text, start, hi, CharClass::TextNumber, true);
        assert(window(text@, lo as int, hi as int).skip(start - lo) =~= window(
            text@,
            start as int,
            hi as int,
        ));
        assert(window(text@, start as int, hi as int).take(end - start) =~= window(
            text@,
            start as int,
            end as int,
        ));
        parse_decimal_in(text, start, end)
    }

    /// The temperature in the raw string of the attribute entry in the window
    /// `[lo, hi)` of `section` (see [`raw_string_temperature`]).
    pub fn extract_raw_string_temperature(section: &Vec<char>, lo: usize, hi: usize) -> (r:
        Option<i64>)
        requires
            lo <= hi <= section.len(),
        ensures
            r == raw_string_temperature(window(section@, lo as int, hi as int)),
    {
        let s = section;
        let ghost w = window(s@, lo as int, hi as int);
        let raw_pat = chars_of("\"raw\"");
        let r = match find_in(s, lo, hi, &raw_pat) {
            Some(r) => r,
            None => {
                return None;
            },
        };
        assert(w.skip(r - lo) =~= window(s@, r as int, hi as int));
        let string_pat = chars_of("\"string\"");
        let k = match find_in(s, r, hi, &string_pat) {
            Some(k) => k,
            None => {
                return None;
            },
        };
        let after = k + string_pat.len();
        assert(window(s@, r as int, hi as int).skip(k - r + "\"string\""@.len()) =~= window(
            s@,
            after as int,
            hi as int,
        ));
        let mut colon: Vec<char> = Vec::new();
        colon.push(':');
        assert(colon@ =~= seq![':']);
        let c = match find_in(s, after, hi, &colon) {
            Some(c) => c,
            None => {
                return None;
            },
        };
        assert(window(s@, after as int, hi as int).skip(c - after + 1) =~= window(
            s@,
            c + 1,
            hi as int,
        ));
        let v = scan(s, c + 1, hi, CharClass::Whitespace, true);
        assert(trim_start(window(s@, c + 1, hi as int)) =~= window(s@, v as int, hi as int));
        if !(v < hi && s[v] == '"') {
            return None;
        }
        assert(window(s@, v as int, hi as int)[0] == s@[v as int]);
        assert(window(s@, v as int, hi as int).skip(1) =~= window(s@, v + 1, hi as int));
        let quote = chars_of("\"");
        let q = match find_in(s, v + 1, hi, &quote) {
            Some(q) => q,
            None => {
                return None;
            },
        };
        assert(window(s@, v + 1, hi as int).take(q - (v + 1)) =~= window(s@, v + 1, q as int));
        let (a, b) = trim_in(s, v + 1, q);
        match Self::first_number(s, a, b) {
            Some(d) => {
                proof {
                    lemma_first_number_milli(window(s@, a as int, b as int));
                }
                temperature_from_decimal(d)
            },
            None => None,
        }
    }

    /// The temperature of the attribute `attr` in the window `[lo, hi)` of
    /// `json` (see [`attribute_temperature`]).
    pub fn extract_smart_attribute_temperature(
        json: &Vec<char>,
        lo: usize,
        hi: usize,
        attr: &str,
    ) -> (r: Option<i64>)
        requires
            lo <= hi <= json.len(),
        ensures
            r == attribute_temperature(window(json@, lo as int, hi as int), attr@),
    {
        let (a, b) = match Self::smart_attribute_section(json, lo, hi, attr) {
            Some(p) => p,
            None => {
                return None;
            },
        };
        match Self::extract_raw_string_temperature(json, a, b) {
            Some(t) => Some(t),
            None => match Self::extract_smart_attribute_raw(json, a, b, attr) {
                Some(raw) => temperature_from_raw(raw),
                None => None,
            },
        }
    }

    /// The drive temperature in the window `[lo, hi)` of `json` (see
    /// [`json_temperature`]).
    pub fn extract_temperature(json: &Vec<char>, lo: usize, hi: usize) -> (r: Option<i64>)
        requires
            lo <= hi <= json.len(),
        ensures
            r == json_temperature(window(json@, lo as int, hi as int)),
    {
        let ghost w = window(json@, lo as int, hi as int);
        let top = match Self::extract_object_number(json, lo, hi, "temperature", "current") {
            Some(d) => Some(d),
            None => Self::extract_json_number(json, lo, hi, "temperature"),
        };
        let top_temperature = match top {
            Some(d) => {
                proof {
                    lemma_json_number_milli(w, "temperature"@);
                    lemma_object_number_milli(w, "temperature"@, "current"@);
                }
                temperature_from_decimal(d)
            },
            None => None,
        };
        if top_temperature.is_some() {
            return top_temperature;
        }
        match Self::extract_smart_attribute_temperature(json, lo, hi, "Temperature_Celsius") {
            Some(t) => {
                return Some(t);
            },
            None => {},
        }
        match Self::extract_smart_attribute_temperature(json, lo, hi, "Airflow_Temperature_Cel") {
            Some(t) => {
                return Some(t);
            },
            None => {},
        }
        Self::extract_smart_attribute_temperature(json, lo, hi, "Temperature_Internal")
    }
}

/// Numbers read from free text have at most 999 thousandths.
pub proof fn lemma_first_number_milli(text: Seq<char>)
    ensures
        first_number(text) matches Some(d) ==> d.milli < 1000,
{
    let start = span(text, CharClass::NumberStart, false);
    if start < text.len() {
        let rest = text.skip(start as int);
        lemma_parse_decimal_milli(rest.take(span(rest, CharClass::TextNumber, true) as int));
    }
}

/// Numbers read from JSON have at most 999 thousandths.
pub proof fn lemma_json_number_milli(json: Seq<char>, key: Seq<char>)
    ensures
        json_number(json, key) matches Some(d) ==> d.milli < 1000,
{
    if let Some(v) = value_after_key(json, key) {
        lemma_parse_decimal_milli(v.take(span(v, CharClass::JsonNumber, true) as int));
    }
}

/// Numbers read from JSON objects have at most 999 thousandths.
pub proof fn lemma_object_number_milli(json: Seq<char>, object_key: Seq<char>, number_key: Seq<char>)
    ensures
        object_number(json, object_key, number_key) matches Some(d) ==> d.milli < 1000,
{
    if let Some(v) = value_after_key(json, object_key) {
        if let Some(o) = balanced_object(v) {
            lemma_json_number_milli(o, number_key);
        }
    }
}

/// `f64 as u64` applied to the decimal `d`: negative values become 0,
/// fractions are dropped and large values saturate.
pub open spec fn decimal_as_u64(d: Decimal) -> u64 {
    if d.negative {
        0
    } else {
        d.whole
    }
}

/// The overall health verdict of `smartctl -j` output.
pub open spec fn json_health_passed(json: Seq<char>) -> bool {
    find(json, "\"passed\": true"@) is Some || find(
        json,
        "\"smart_status\": { \"passed\": true }"@,
    ) is Some
}

/// Reallocated sectors: the raw `Reallocated_Sector_Ct`, otherwise the raw
/// `Reallocated_Event_Count`.
pub open spec fn json_reallocated_sectors(json: Seq<char>) -> Option<u64> {
    first_some(
        attribute_raw(json, "Reallocated_Sector_Ct"@),
        attribute_raw(json, "Reallocated_Event_Count"@),
    )
}

/// Unsafe shutdowns: the NVMe health log's `"unsafe_shutdowns"`, otherwise
/// the raw `Power-Off_Retract_Count`, otherwise the raw
/// `Unexpect_Power_Loss_Ct`.
pub open spec fn json_unsafe_shutdowns(json: Seq<char>) -> Option<u64> {
    first_some(
        match json_number(json, "unsafe_shutdowns"@) {
            Some(d) => Some(decimal_as_u64(d)),
            None => None,
        },
        first_some(
            attribute_raw(json, "Power-Off_Retract_Count"@),
            attribute_raw(json, "Unexpect_Power_Loss_Ct"@),
        ),
    )
}

/// The report that `smartctl -j` output `json` gives for the device `name`.
pub open spec fn json_report(json: Seq<char>, name: Seq<char>) -> SmartDeviceView {
    SmartDeviceView {
        name,
        health_passed: json_health_passed(json),
        temperature: json_temperature(json),
        reallocated_sectors: json_reallocated_sectors(json),
        pending_sectors: attribute_raw(json, "Current_Pending_Sector"@),
        unsafe_shutdowns: json_unsafe_shutdowns(json),
    }
}

/// The report that decoded `smartctl -j` output `text` gives: none when the
/// output is blank, or when the command failed and the output does not start
/// with a JSON object.
pub open spec fn text_output_report(text: Seq<char>, status_success: bool, name: Seq<char>) -> Option<
    SmartDeviceView,
> {
    let t = trim_start(text);
    if t.len() == 0 || (!status_success && t[0] != '{') {
        None
    } else {
        Some(json_report(text, name))
    }
}

/// The report that `smartctl -j` gives on standard output `stdout`.
pub open spec fn output_report(stdout: Seq<u8>, status_success: bool, name: Seq<char>) -> Option<
    SmartDeviceView,
> {
    text_output_report(utf8_lossy(stdout), status_success, name)
}

impl SmartHealth {
    /// Parse `smartctl -j` output held as characters.
    fn parse_json_chars(json: &Vec<char>, device: &str) -> (d: SmartDevice)
        ensures
            d@ == json_report(json@, device@),
    {
        let hi = json.len();
        assert(window(json@, 0, hi as int) =~= json@);
        let health_passed = contains_in(json, 0, hi, "\"passed\": true") || contains_in(
            json,
            0,
            hi,
            "\"smart_status\": { \"passed\": true }",
        );
        let temperature = Self::extract_temperature(json, 0, hi);
        let reallocated_sectors = match Self::extract_smart_attribute_raw(
            json,
            0,
            hi,
            "Reallocated_Sector_Ct",
        ) {
            Some(v) => Some(v),
            None => Self::extract_smart_attribute_raw(json, 0, hi, "Reallocated_Event_Count"),
        };
        let pending_sectors = Self::extract_smart_attribute_raw(
            json,
            0,
            hi,
            "Current_Pending_Sector",
        );
        let unsafe_shutdowns = match Self::extract_json_number(json, 0, hi, "unsafe_shutdowns") {
            Some(d) => Some(
                if d.negative {
                    0
                } else {
                    d.whole
                },
            ),
            None => match Self::extract_smart_attribute_raw(json, 0, hi, "Power-Off_Retract_Count") {
                Some(v) => Some(v),
                None => Self::extract_smart_attribute_raw(json, 0, hi, "Unexpect_Power_Loss_Ct"),
            },
        };
        SmartDevice {
            name: String::from_str(device),
            health_passed,
            temperature,
            reallocated_sectors,
            pending_sectors,
            unsafe_shutdowns,
        }
    }

    /// Parse smartctl JSON output.
    pub fn parse_smartctl_json(json: &str, device: &str) -> (r: Option<SmartDevice>)
        ensures
            r matches Some(d) && d@ == json_report(json@, device@),
    {
        let chars = chars_of(json);
        Some(Self::parse_json_chars(&chars, device))
    }

    /// Parse the standard output of `smartctl -j`; a failed run still counts
    /// when its output is a JSON object.
    pub fn parse_smartctl_output(stdout: &[u8], status_success: bool, device: &str) -> (r: Option<
        SmartDevice,
    >)
        ensures
            opt_device_view(r) == output_report(stdout@, status_success, device@),
    {
        let text = decode_utf8_lossy(stdout);
        Self::parse_smartctl_output_text(text.as_str(), status_success, device)
    }

    /// Parse decoded `smartctl -j` output (see [`text_output_report`]).
    pub fn parse_smartctl_output_text(text: &str, status_success: bool, device: &str) -> (r:
        Option<SmartDevice>)
        ensures
            opt_device_view(r) == text_output_report(text@, status_success, device@),
    {
        let chars = chars_of(text);
        let hi = chars.len();
        assert(window(chars@, 0, hi as int) =~= chars@);
        let start = scan(&chars, 0, hi, CharClass::Whitespace, true);
        assert(trim_start(chars@) =~= window(chars@, start as int, hi as int));
        if start >= hi || (!status_success && chars[start] != '{') {
            return None;
        }
        Some(Self::parse_json_chars(&chars, device))
    }
}

/// A failed `smartctl -j` run still counts when its output is a JSON
/// object: the exit status only matters for output that is not one.
pub proof fn lemma_failed_run_with_json_counts(text: Seq<char>, name: Seq<char>)
    requires
        trim_start(text).len() > 0,
        trim_start(text)[0] == '{',
    ensures
        text_output_report(text, false, name) == text_output_report(text, true, name),
        text_output_report(text, false, name) == Some(json_report(text, name)),
{
}

/// Which attribute each counter of a JSON report comes from. Reallocated
/// sectors are the raw `Reallocated_Sector_Ct` whenever that attribute has a
/// raw value, and the raw `Reallocated_Event_Count` only when it has none.
/// Pending sectors are the raw `Current_Pending_Sector`. Unsafe shutdowns are
/// the NVMe health log's count when present (negative as 0, fractions
/// dropped), otherwise the raw `Power-Off_Retract_Count`, otherwise the raw
/// `Unexpect_Power_Loss_Ct`. The report is for the device it was asked for.
pub proof fn lemma_json_report_counters(json: Seq<char>, name: Seq<char>)
    ensures
        json_report(json, name).name == name,
        attribute_raw(json, "Reallocated_Sector_Ct"@) is Some ==> json_report(
            json,
            name,
        ).reallocated_sectors == attribute_raw(json, "Reallocated_Sector_Ct"@),
        attribute_raw(json, "Reallocated_Sector_Ct"@) is None ==> json_report(
            json,
            name,
        ).reallocated_sectors == attribute_raw(json, "Reallocated_Event_Count"@),
        json_report(json, name).pending_sectors == attribute_raw(json, "Current_Pending_Sector"@),
        json_number(json, "unsafe_shutdowns"@) matches Some(d) ==> json_report(
            json,
            name,
        ).unsafe_shutdowns == Some(if d.negative { 0u64 } else { d.whole }),
        json_number(json, "unsafe_shutdowns"@) is None && attribute_raw(json, "Power-Off_Retract_Count"@)
            is Some ==> json_report(json, name).unsafe_shutdowns == attribute_raw(
            json,
            "Power-Off_Retract_Count"@,
        ),
        json_number(json, "unsafe_shutdowns"@) is None && attribute_raw(json, "Power-Off_Retract_Count"@)
            is None ==> json_report(json, name).unsafe_shutdowns == attribute_raw(
            json,
            "Unexpect_Power_Loss_Ct"@,
        ),
{
}

/// The health verdict passes exactly when the output says `"passed": true`,
/// in either of the two layouts `smartctl` prints.
pub proof fn lemma_json_report_health(json: Seq<char>, name: Seq<char>)
    ensures
        json_report(json, name).health_passed <==> (find(json, "\"passed\": true"@) is Some || find(
            json,
            "\"smart_status\": { \"passed\": true }"@,
        ) is Some),
{
}

/// A plausible top-level `"temperature": {"current": ..}` is the drive
/// temperature, before any attribute is looked at.
pub proof fn lemma_json_current_temperature_first(json: Seq<char>, name: Seq<char>)
    ensures
        object_number(json, "temperature"@, "current"@) matches Some(d) ==> (decimal_temperature(d)
            is Some ==> json_report(json, name).temperature == decimal_temperature(d)),
{
}

} // verus!
