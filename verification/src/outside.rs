//! The calls into other crates. Nothing in this file is proved: each contract
//! is taken from the called function's documentation and source.

use vstd::prelude::*;

verus! {

/// Whether the regular expression `pattern` matches anywhere in `text`;
/// `false` where `pattern` is no valid regular expression.
pub uninterp spec fn regex_is_match(pattern: Seq<char>, text: Seq<char>) -> bool;

/// The text of the first capture group in the leftmost match of the regular
/// expression `pattern` in `text`; `None` where there is no match, where the
/// group took no part in it, or where `pattern` is no valid regular expression.
pub uninterp spec fn regex_capture(pattern: Seq<char>, text: Seq<char>) -> Option<Seq<char>>;

/// The punycode encoding of `label`, without the `xn--` prefix; `None` where
/// the encoder reports an overflow.
pub uninterp spec fn punycode_of(label: Seq<char>) -> Option<Seq<char>>;

/// The instant that `text` denotes as an RFC 3339 date and time: seconds since
/// the Unix epoch and nanoseconds within the second; `None` where `text` is
/// not of that form.
pub uninterp spec fn rfc3339_instant(text: Seq<char>) -> Option<(i64, u32)>;

/// The calendar day that `text` denotes when read by the strftime-style
/// format `format`, as the number of days since the last day of the year 1 BCE
/// (1 January of the year 1 is day 1); `None` where `text` is not of that form
/// or names no day of the calendar.
pub uninterp spec fn strftime_day(text: Seq<char>, format: Seq<char>) -> Option<i32>;

pub open spec fn opt_view(o: Option<String>) -> Option<Seq<char>> {
    match o {
        Some(s) => Some(s@),
        None => None,
    }
}

/// `String::push`: appends one character.
#[verifier::external_body]
pub(crate) fn push_char(s: &mut String, c: char)
    ensures
        final(s)@ == old(s)@.push(c),
{
    s.push(c)
}

/// `Regex::is_match` of the regex crate, as re-exported by lazy_regex, on a
/// pattern compiled by `Regex::new`. The search depends on the pattern and
/// the text alone, so the answer is named by `regex_is_match`.
#[verifier::external_body]
pub(crate) fn regex_matches(pattern: &str, text: &str) -> (r: bool)
    ensures
        r == regex_is_match(pattern@, text@),
{
    match lazy_regex::Regex::new(pattern) {
        Ok(re) => re.is_match(text),
        Err(_) => false,
    }
}

/// `Regex::captures` of the regex crate, as re-exported by lazy_regex, on a
/// pattern compiled by `Regex::new`; the first group of the leftmost match is
/// copied out. The search depends on the pattern and the text alone, so the
/// answer is named by `regex_capture`.
#[verifier::external_body]
pub(crate) fn regex_first_group(pattern: &str, text: &str) -> (r: Option<String>)
    ensures
        opt_view(r) == regex_capture(pattern@, text@),
{
    match lazy_regex::Regex::new(pattern) {
        Ok(re) => re.captures(text).and_then(|c| c.get(1)).map(|m| m.as_str().to_string()),
        Err(_) => None,
    }
}

/// `punycode::encode`. The encoder's counters are 32 bits wide and only its
/// first addition is guarded; with at most 63 characters, the length of a DNS
/// label, none of them can overflow.
#[verifier::external_body]
pub(crate) fn punycode_encode(label: &str) -> (r: Option<String>)
    requires
        label@.len() <= 63,
    ensures
        opt_view(r) == punycode_of(label@),
{
    match punycode::encode(label) {
        Ok(s) => Some(s),
        Err(_) => None,
    }
}

/// `chrono::DateTime::parse_from_rfc3339`, the result moved to UTC and handed
/// out as seconds and nanoseconds.
#[verifier::external_body]
pub(crate) fn rfc3339_to_utc(text: &str) -> (r: Option<(i64, u32)>)
    ensures
        r == rfc3339_instant(text@),
{
    match chrono::DateTime::parse_from_rfc3339(text) {
        Ok(dt) => Some((dt.to_utc().timestamp(), dt.to_utc().timestamp_subsec_nanos())),
        Err(_) => None,
    }
}

/// `chrono::NaiveDate::parse_from_str`, the day handed out by
/// `Datelike::num_days_from_ce`.
#[verifier::external_body]
pub(crate) fn strftime_to_day(text: &str, format: &str) -> (r: Option<i32>)
    ensures
        r == strftime_day(text@, format@),
{
    match chrono::NaiveDate::parse_from_str(text, format) {
        Ok(date) => Some(chrono::Datelike::num_days_from_ce(&date)),
        Err(_) => None,
    }
}

} // verus!
