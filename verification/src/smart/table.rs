//! Reading the attribute table that `smartctl -A` prints.

use vstd::prelude::*;
use vstd::string::*;
use crate::temperature::{decimal_temperature, plausible, temperature_from_decimal};
use crate::text::{
    chars_of, decode_utf8_lossy, utf8_lossy, segments, segments_in, tokens, tokens_in, texts,
    window_equals, window,
};
use super::json::{first_number, json_temperature, lemma_first_number_milli};
use super::{first_some, opt_device_view, SmartDevice, SmartDeviceView, SmartHealth};

verus! {

broadcast use vstd::std_specs::vec::group_vec_axioms;

/// The temperature on an attribute table line: after the first word `-`
/// (the column before the raw value), the first number of the next word,
/// when plausible.
pub open spec fn dash_temperature(words: Seq<Seq<char>>, i: int) -> Option<i64>
    decreases words.len() - i,
{
    if i < 0 || i >= words.len() {
        None
    } else if words[i] == "-"@ {
        if i + 1 < words.len() {
            match first_number(words[i + 1]) {
                Some(d) => decimal_temperature(d),
                None => None,
            }
        } else {
            None
        }
    } else {
        dash_temperature(words, i + 1)
    }
}

/// The first line, from line `i` on, whose second word is `attr`.
pub open spec fn attribute_line(lines: Seq<Seq<char>>, attr: Seq<char>, i: int) -> Option<
    Seq<char>,
>
    decreases lines.len() - i,
{
    if i < 0 || i >= lines.len() {
        None
    } else if tokens(lines[i]).len() > 1 && tokens(lines[i])[1] == attr {
        Some(lines[i])
    } else {
        attribute_line(lines, attr, i + 1)
    }
}

/// The temperature of the attribute `attr` in a `smartctl -A` table.
pub open spec fn text_attribute_temperature(output: Seq<char>, attr: Seq<char>) -> Option<i64> {
    match attribute_line(segments(output), attr, 0) {
        Some(line) => dash_temperature(tokens(line), 0),
        None => None,
    }
}

/// The drive temperature in a `smartctl -A` table: the first of the
/// attributes `Temperature_Celsius`, `Airflow_Temperature_Cel` and
/// `Temperature_Internal` that gives one.
pub open spec fn text_temperature(output: Seq<char>) -> Option<i64> {
    first_some(
        text_attribute_temperature(output, "Temperature_Celsius"@),
        first_some(
            text_attribute_temperature(output, "Airflow_Temperature_Cel"@),
            text_attribute_temperature(output, "Temperature_Internal"@),
        ),
    )
}

/// A report for the device `name` that carries only a temperature.
pub open spec fn bare_report(name: Seq<char>) -> SmartDeviceView {
    SmartDeviceView {
        name,
        health_passed: true,
        temperature: None,
        reallocated_sectors: None,
        pending_sectors: None,
        unsafe_shutdowns: None,
    }
}

/// The report that a `smartctl -A` table gives: the earlier report `parsed`
/// (or a bare one for `name`) with the table's temperature, or none when the
/// table has no temperature.
pub open spec fn text_report(
    stdout: Seq<u8>,
    name: Seq<char>,
    parsed: Option<SmartDeviceView>,
) -> Option<SmartDeviceView> {
    table_report(utf8_lossy(stdout), name, parsed)
}

/// The report that the decoded `smartctl -A` table `text` gives (see
/// [`text_report`]).
pub open spec fn table_report(
    text: Seq<char>,
    name: Seq<char>,
    parsed: Option<SmartDeviceView>,
) -> Option<SmartDeviceView> {
    match text_temperature(text) {
        None => None,
        Some(t) => {
            let base = match parsed {
                Some(p) => p,
                None => bare_report(name),
            };
            Some(SmartDeviceView { temperature: Some(t), ..base })
        },
    }
}

impl SmartHealth {
    /// The temperature on the attribute table line `[lo, hi)` of `output`
    /// (see [`dash_temperature`]).
    pub fn extract_text_attribute_raw_value(output: &Vec<char>, lo: usize, hi: usize) -> (r:
        Option<i64>)
        requires
            lo <= hi <= output.len(),
        ensures
            r == dash_temperature(tokens(window(output@, lo as int, hi as int)), 0),
    {
        let words = tokens_in(output, lo, hi);
        let ghost ws = tokens(window(output@, lo as int, hi as int));
        let dash = chars_of("-");
        let mut k: usize = 0;
        while k < words.len()
            invariant
                k <= words.len(),
                ws == texts(output@, words@),
                ws == tokens(window(output@, lo as int, hi as int)),
                forall|j: int|
                    0 <= j < words.len() ==> lo <= (#[trigger] words@[j]).0 <= words@[j].1 <= hi,
                hi <= output.len(),
                dash@ == "-"@,
                dash_temperature(ws, 0) == dash_temperature(ws, k as int),
            decreases words.len() - k,
        {
            let (a, b) = words[k];
            assert(ws[k as int] == window(output@, a as int, b as int));
            if window_equals(output, a, b, &dash) {
                if k + 1 < words.len() {
                    let (c, d) = words[k + 1];
                    assert(ws[k + 1] == window(output@, c as int, d as int));
                    assert(dash_temperature(ws, k as int) == match first_number(ws[k + 1]) {
                        Some(d) => decimal_temperature(d),
                        None => None,
                    });
                    let r = match Self::first_number(output, c, d) {
                        Some(n) => {
                            proof {
                                lemma_first_number_milli(window(output@, c as int, d as int));
                            }
                            temperature_from_decimal(n)
                        },
                        None => None,
                    };
                    return r;
                }
                return None;
            }
            k = k + 1;
        }
        None
    }

    /// The temperature of the attribute `attr` in the `smartctl -A` table in
    /// the window `[lo, hi)` of `output` (see [`text_attribute_temperature`]).
    pub fn extract_text_attribute_temperature(
        output: &Vec<char>,
        lo: usize,
        hi: usize,
        attr: &str,
    ) -> (r: Option<i64>)
        requires
            lo <= hi <= output.len(),
        ensures
            r == text_attribute_temperature(window(output@, lo as int, hi as int), attr@),
    {
        let lines = segments_in(output, lo, hi);
        let ghost ls = segments(window(output@, lo as int, hi as int));
        let name = chars_of(attr);
        let mut i: usize = 0;
        while i < lines.len()
            invariant
                i <= lines.len(),
                ls == texts(output@, lines@),
                ls == segments(window(output@, lo as int, hi as int)),
                forall|j: int|
                    0 <= j < lines.len() ==> lo <= (#[trigger] lines@[j]).0 <= lines@[j].1 <= hi,
                hi <= output.len(),
                name@ == attr@,
                attribute_line(ls, attr@, 0) == attribute_line(ls, attr@, i as int),
            decreases lines.len() - i,
        {
            let (a, b) = lines[i];
            assert(ls[i as int] == window(output@, a as int, b as int));
            let words = tokens_in(output, a, b);
            if words.len() > 1 {
                let (c, d) = words[1];
                assert(texts(output@, words@)[1] == window(output@, c as int, d as int));
                if window_equals(output, c, d, &name) {
                    return Self::extract_text_attribute_raw_value(output, a, b);
                }
            }
            i = i + 1;
        }
        None
    }

    /// The drive temperature in a `smartctl -A` table (see
    /// [`text_temperature`]).
    pub fn extract_text_temperature(output: &Vec<char>) -> (r: Option<i64>)
        ensures
            r == text_temperature(output@),
    {
        let hi = output.len();
        assert(window(output@, 0, hi as int) =~= output@);
        match Self::extract_text_attribute_temperature(output, 0, hi, "Temperature_Celsius") {
            Some(t) => {
                return Some(t);
            },
            None => {},
        }
        match Self::extract_text_attribute_temperature(output, 0, hi, "Airflow_Temperature_Cel") {
            Some(t) => {
                return Some(t);
            },
            None => {},
        }
        Self::extract_text_attribute_temperature(output, 0, hi, "Temperature_Internal")
    }

    /// Parse `smartctl -A` output: the earlier report `parsed` (or a bare one
    /// for `device`) with the table's temperature.
    pub fn parse_smartctl_text_output(
        stdout: &[u8],
        device: &str,
        parsed: Option<SmartDevice>,
    ) -> (r: Option<SmartDevice>)
        ensures
            opt_device_view(r) == text_report(stdout@, device@, opt_device_view(parsed)),
    {
        let text = decode_utf8_lossy(stdout);
        Self::parse_smartctl_table_text(text.as_str(), device, parsed)
    }

    /// Parse a decoded `smartctl -A` table (see [`table_report`]).
    pub fn parse_smartctl_table_text(text: &str, device: &str, parsed: Option<SmartDevice>) -> (r:
        Option<SmartDevice>)
        ensures
            opt_device_view(r) == table_report(text@, device@, opt_device_view(parsed)),
    {
        let chars = chars_of(text);
        match Self::extract_text_temperature(&chars) {
            Some(t) => Some(Self::with_temperature(device, parsed, t)),
            None => None,
        }
    }
}



impl SmartHealth {
    /// The temperature in `smartctl -A` output.
    pub(crate) fn text_temperature_of(stdout: &[u8]) -> (r: Option<i64>)
        ensures
            r == text_temperature(utf8_lossy(stdout@)),
    {
        let text = decode_utf8_lossy(stdout);
        let chars = chars_of(text.as_str());
        Self::extract_text_temperature(&chars)
    }

    /// The report `parsed` (or a bare one for `device`) with temperature `t`.
    pub(crate) fn with_temperature(device: &str, parsed: Option<SmartDevice>, t: i64) -> (r: SmartDevice)
        ensures
            r@ == (SmartDeviceView {
                temperature: Some(t),
                ..match opt_device_view(parsed) {
                    Some(p) => p,
                    None => bare_report(device@),
                }
            }),
    {
        let mut d = match parsed {
            Some(d) => d,
            None => SmartDevice {
                name: String::from_str(device),
                health_passed: true,
                temperature: None,
                reallocated_sectors: None,
                pending_sectors: None,
                unsafe_shutdowns: None,
            },
        };
        d.temperature = Some(t);
        d
    }
}


/// A reported temperature is a plausible one.
pub open spec fn plausible_reading(t: Option<i64>) -> bool {
    t matches Some(v) ==> plausible(v as int)
}

proof fn lemma_dash_temperature_plausible(words: Seq<Seq<char>>, i: int)
    ensures
        plausible_reading(dash_temperature(words, i)),
    decreases words.len() - i,
{
    if 0 <= i < words.len() && words[i] != "-"@ {
        lemma_dash_temperature_plausible(words, i + 1);
    }
}

/// Implausible sensor values are ignored: every temperature read from
/// `smartctl` output, JSON or attribute table, lies within the plausible
/// range.
pub proof fn lemma_reported_temperatures_plausible(json: Seq<char>, table: Seq<char>)
    ensures
        plausible_reading(json_temperature(json)),
        plausible_reading(text_temperature(table)),
{
    match attribute_line(segments(table), "Temperature_Celsius"@, 0) {
        Some(line) => lemma_dash_temperature_plausible(tokens(line), 0),
        None => {},
    }
    match attribute_line(segments(table), "Airflow_Temperature_Cel"@, 0) {
        Some(line) => lemma_dash_temperature_plausible(tokens(line), 0),
        None => {},
    }
    match attribute_line(segments(table), "Temperature_Internal"@, 0) {
        Some(line) => lemma_dash_temperature_plausible(tokens(line), 0),
        None => {},
    }
}

/// A temperature read from an attribute table keeps the health fields of
/// the report it completes.
pub proof fn lemma_text_report_keeps_health(
    stdout: Seq<u8>,
    name: Seq<char>,
    parsed: SmartDeviceView,
)
    ensures
        text_report(stdout, name, Some(parsed)) matches Some(r) ==> r.name == parsed.name
            && r.health_passed == parsed.health_passed && r.reallocated_sectors
            == parsed.reallocated_sectors && r.pending_sectors == parsed.pending_sectors
            && r.unsafe_shutdowns == parsed.unsafe_shutdowns && r.temperature is Some,
{
}

} // verus!
