//! Reading a WHOIS answer for a domain name.
//!
//! The answers follow no common format. The fields are found by regular
//! expressions that cover the dialects of many registries; what those
//! expressions match is decided by the regex engine, and everything around
//! them (the order of the steps, the normalization of the text, the suffix
//! rules, the splitting into lines) is decided here.

use vstd::prelude::*;
use crate::outside::{
    opt_view, regex_capture, regex_first_group, regex_is_match, regex_matches, rfc3339_instant,
    rfc3339_to_utc, strftime_day, strftime_to_day,
};
use crate::rules::{
    created_pattern, created_pattern_text, expiry_pattern, expiry_pattern_text, name_pattern,
    name_pattern_text, name_server_pattern, name_server_pattern_text, not_found_pattern,
    not_found_pattern_text,
};
use crate::suffix::{normalized_match, EntryView, SuffixTable};
use crate::text::{
    chars_of, contains, has_within, line_at, line_end, line_of, line_stop, lower_chars, lowered,
    replace_all, replaced, same, string_of,
};

verus! {

/// Day, month and year with dots between them.
pub const DOTTED_DATE_FORMAT: &'static str = "%d.%m.%Y";

/// The number that 1 January 1970 has where 1 January of the year 1 is day 1.
pub const EPOCH_DAY: i64 = 719_163;

pub const SECONDS_PER_DAY: i64 = 86_400;

/// The suffix whose registry answers with a refused connection for a
/// registered name and says nothing else.
pub const CONNECT_ONLY_SUFFIX: &'static str = ".de";

pub const CONNECT_MARKER: &'static str = ": connect";

/// How a date that was found is handed out.
#[derive(Clone, Copy, Debug, PartialEq, Eq)]
pub enum DateMode {
    /// The text as it stands in the answer.
    Raw,
    /// An instant in UTC, where the text can be read as one.
    Structured,
}

/// A date of a domain record.
#[derive(Clone, Debug, PartialEq, Eq)]
pub enum DateValue {
    Raw(String),
    /// Seconds since the Unix epoch and nanoseconds within the second.
    Utc { seconds: i64, nanos: u32 },
}

pub ghost enum DateView {
    Raw(Seq<char>),
    Utc { seconds: i64, nanos: u32 },
}

impl View for DateValue {
    type V = DateView;

    open spec fn view(&self) -> DateView {
        match *self {
            DateValue::Raw(s) => DateView::Raw(s@),
            DateValue::Utc { seconds, nanos } => DateView::Utc { seconds, nanos },
        }
    }
}

pub open spec fn date_opt_view(d: Option<DateValue>) -> Option<DateView> {
    match d {
        Some(v) => Some(v@),
        None => None,
    }
}

/// What a WHOIS answer says of a registered domain.
#[derive(Clone, Debug, Default, PartialEq, Eq)]
pub struct Domain {
    pub name: String,
    pub suffix: String,
    pub created: Option<DateValue>,
    pub expiry: Option<DateValue>,
    pub name_servers: Vec<String>,
}

pub ghost struct DomainView {
    pub name: Seq<char>,
    pub suffix: Seq<char>,
    pub created: Option<DateView>,
    pub expiry: Option<DateView>,
    pub name_servers: Seq<Seq<char>>,
}

pub open spec fn strings_view(v: Seq<String>) -> Seq<Seq<char>> {
    Seq::new(v.len(), |i: int| v[i]@)
}

impl View for Domain {
    type V = DomainView;

    open spec fn view(&self) -> DomainView {
        DomainView {
            name: self.name@,
            suffix: self.suffix@,
            created: date_opt_view(self.created),
            expiry: date_opt_view(self.expiry),
            name_servers: strings_view(self.name_servers@),
        }
    }
}

pub open spec fn domain_opt_view(d: Option<Domain>) -> Option<DomainView> {
    match d {
        Some(v) => Some(v@),
        None => None,
    }
}

/// Line ends made uniform, and a value that stands on the line below its
/// label pulled up behind the label's colon.
pub open spec fn normalized_text(raw: Seq<char>) -> Seq<char> {
    replaced(replaced(raw, "\r\n"@, "\n"@), ":\n"@, ":"@)
}

pub open spec fn name_in(text: Seq<char>) -> Option<Seq<char>> {
    match regex_capture(name_pattern(), text) {
        Some(name) => Some(lowered(name)),
        None => None,
    }
}

/// The first second of a day in UTC, counted from the Unix epoch.
pub open spec fn midnight_of(day: i32) -> int {
    (day - EPOCH_DAY) * SECONDS_PER_DAY
}

/// The instant of a date text: read as RFC 3339 first; as a date with dots
/// second, which stands for the first second of its day in UTC.
pub open spec fn instant_of(rfc3339: Option<(i64, u32)>, dotted: Option<i32>) -> Option<DateView> {
    match rfc3339 {
        Some(t) => Some(DateView::Utc { seconds: t.0, nanos: t.1 }),
        None => match dotted {
            Some(day) => Some(DateView::Utc { seconds: midnight_of(day) as i64, nanos: 0 }),
            None => None,
        },
    }
}

/// A date text in the given mode. In raw mode it is kept as it is; in
/// structured mode it is an instant where it can be read as one, and kept as
/// it is where it cannot.
pub open spec fn date_of(mode: DateMode, captured: Seq<char>) -> DateView {
    match mode {
        DateMode::Raw => DateView::Raw(captured),
        DateMode::Structured => match instant_of(
            rfc3339_instant(captured),
            strftime_day(captured, DOTTED_DATE_FORMAT@),
        ) {
            Some(instant) => instant,
            None => DateView::Raw(captured),
        },
    }
}

pub open spec fn created_in(mode: DateMode, text: Seq<char>) -> Option<DateView> {
    match regex_capture(created_pattern(), text) {
        Some(captured) => Some(date_of(mode, captured)),
        None => None,
    }
}

pub open spec fn expiry_in(mode: DateMode, text: Seq<char>) -> Option<DateView> {
    match regex_capture(expiry_pattern(), text) {
        Some(captured) => Some(date_of(mode, captured)),
        None => None,
    }
}

/// The name servers named on the lines from `from` on, in the order of the
/// lines: each as often as it is named.
pub open spec fn name_servers_from(s: Seq<char>, from: int) -> Seq<Seq<char>>
    decreases s.len() - from,
{
    if from < 0 || from >= s.len() {
        Seq::empty()
    } else {
        let end = line_end(s, from);
        let rest = if from <= end && end < s.len() {
            name_servers_from(s, end + 1)
        } else {
            Seq::empty()
        };
        match regex_capture(name_server_pattern(), line_at(s, from, end)) {
            Some(host) => seq![lowered(host)] + rest,
            None => rest,
        }
    }
}

pub open spec fn name_servers_in(text: Seq<char>) -> Seq<Seq<char>> {
    name_servers_from(text, 0)
}

/// The record that an answer gives for the row `row` of the table, the name
/// being known.
pub open spec fn record_of(
    table: Seq<EntryView>,
    mode: DateMode,
    text: Seq<char>,
    name: Seq<char>,
    row: int,
) -> Option<DomainView> {
    let suffix = table[row].suffix;
    if suffix == CONNECT_ONLY_SUFFIX@ {
        if contains(text, CONNECT_MARKER@) {
            Some(
                DomainView {
                    name,
                    suffix,
                    created: None,
                    expiry: None,
                    name_servers: Seq::empty(),
                },
            )
        } else {
            None
        }
    } else {
        Some(
            DomainView {
                name,
                suffix,
                created: created_in(mode, text),
                expiry: expiry_in(mode, text),
                name_servers: name_servers_in(text),
            },
        )
    }
}

/// What `parse` makes of an answer: nothing where the answer says that the
/// domain is not there, where no name is found in it, or where the name falls
/// under no suffix of the table; else the record.
pub open spec fn parsed(table: Seq<EntryView>, mode: DateMode, raw: Seq<char>) -> Option<DomainView> {
    if regex_is_match(not_found_pattern(), raw) {
        None
    } else {
        let text = normalized_text(raw);
        match name_in(text) {
            None => None,
            Some(name) => match normalized_match(table, name) {
                None => None,
                Some(row) => record_of(table, mode, text, name, row),
            },
        }
    }
}

/// Reading an answer has no memory: any two results that `parse` can give
/// for one answer, one table and one mode are the same record.
pub proof fn lemma_parse_repeats(
    first: Option<Domain>,
    second: Option<Domain>,
    table: Seq<EntryView>,
    mode: DateMode,
    raw: Seq<char>,
)
    ensures
        domain_opt_view(first) == parsed(table, mode, raw) && domain_opt_view(second) == parsed(
            table,
            mode,
            raw,
        ) ==> domain_opt_view(first) == domain_opt_view(second),
{
}

/// Under the connect-only suffix an answer gives a record exactly where it
/// holds the marker, and that record has the name and the suffix and nothing
/// else.
pub proof fn lemma_connect_only(
    table: Seq<EntryView>,
    mode: DateMode,
    text: Seq<char>,
    name: Seq<char>,
    row: int,
)
    requires
        0 <= row < table.len(),
        table[row].suffix == CONNECT_ONLY_SUFFIX@,
    ensures
        contains(text, CONNECT_MARKER@) ==> record_of(table, mode, text, name, row) == Some(
            DomainView {
                name,
                suffix: CONNECT_ONLY_SUFFIX@,
                created: None,
                expiry: None,
                name_servers: Seq::empty(),
            },
        ),
        !contains(text, CONNECT_MARKER@) ==> record_of(table, mode, text, name, row) is None,
{
}

/// An answer that holds one of the phrases for a missing domain gives no
/// record, whatever else it holds.
pub proof fn lemma_not_found_wins(table: Seq<EntryView>, mode: DateMode, raw: Seq<char>)
    ensures
        regex_is_match(not_found_pattern(), raw) ==> parsed(table, mode, raw) is None,
{
}

/// Whether the answer says that there is no such domain.
pub fn not_found(raw: &str) -> (r: bool)
    ensures
        r == regex_is_match(not_found_pattern(), raw@),
{
    regex_matches(not_found_pattern_text().as_str(), raw)
}

/// A string in ASCII lower case.
pub fn lower_string(s: &str) -> (r: String)
    ensures
        r@ == lowered(s@),
{
    let chars = chars_of(s);
    let lower = lower_chars(&chars);
    assert(lower@.subrange(0, lower@.len() as int) =~= lower@);
    string_of(&lower, 0, lower.len())
}

/// Finds the domain name and puts it in lower case.
pub fn parse_name(raw: &str) -> (r: Option<String>)
    ensures
        opt_view(r) == name_in(raw@),
{
    match regex_first_group(name_pattern_text().as_str(), raw) {
        Some(name) => Some(lower_string(name.as_str())),
        None => None,
    }
}

/// The instant of a date text, from what the two readers made of it.
pub fn pick_instant(rfc3339: Option<(i64, u32)>, dotted: Option<i32>) -> (r: Option<DateValue>)
    ensures
        date_opt_view(r) == instant_of(rfc3339, dotted),
{
    match rfc3339 {
        Some(t) => Some(DateValue::Utc { seconds: t.0, nanos: t.1 }),
        None => match dotted {
            Some(day) => {
                let days: i64 = day as i64 - EPOCH_DAY;
                Some(DateValue::Utc { seconds: days * SECONDS_PER_DAY, nanos: 0 })
            },
            None => None,
        },
    }
}

/// A date text in the given mode.
pub fn parse_datetime(captured: &str, mode: DateMode) -> (r: DateValue)
    ensures
        r@ == date_of(mode, captured@),
{
    match mode {
        DateMode::Raw => DateValue::Raw(captured.to_owned()),
        DateMode::Structured => {
            let rfc3339 = rfc3339_to_utc(captured);
            let dotted = strftime_to_day(captured, DOTTED_DATE_FORMAT);
            match pick_instant(rfc3339, dotted) {
                Some(instant) => instant,
                None => DateValue::Raw(captured.to_owned()),
            }
        },
    }
}

/// Finds the date of registration.
pub fn parse_created(raw: &str, mode: DateMode) -> (r: Option<DateValue>)
    ensures
        date_opt_view(r) == created_in(mode, raw@),
{
    match regex_first_group(created_pattern_text().as_str(), raw) {
        Some(captured) => Some(parse_datetime(captured.as_str(), mode)),
        None => None,
    }
}

/// Finds the date of expiry.
pub fn parse_expiry(raw: &str, mode: DateMode) -> (r: Option<DateValue>)
    ensures
        date_opt_view(r) == expiry_in(mode, raw@),
{
    match regex_first_group(expiry_pattern_text().as_str(), raw) {
        Some(captured) => Some(parse_datetime(captured.as_str(), mode)),
        None => None,
    }
}

/// Finds the name servers, line by line.
pub fn parse_ns(raw: &str) -> (r: Vec<String>)
    ensures
        strings_view(r@) == name_servers_in(raw@),
{
    let s = chars_of(raw);
    let n: usize = s.len();
    let mut out: Vec<String> = Vec::new();
    let mut from: usize = 0;
    let pattern = name_server_pattern_text();
    assert(strings_view(out@) + name_servers_from(s@, 0) =~= name_servers_from(s@, 0));
    while from < n
        invariant
            from <= n,
            n == s@.len(),
            pattern@ == name_server_pattern(),
            name_servers_in(s@) == strings_view(out@) + name_servers_from(s@, from as int),
        decreases n - from,
    {
        let end = line_stop(&s, from);
        let line_chars = line_of(&s, from, end);
        assert(line_chars@.subrange(0, line_chars@.len() as int) =~= line_chars@);
        let line = string_of(&line_chars, 0, line_chars.len());
        let next: usize = if end < n {
            end + 1
        } else {
            n
        };
        let ghost before = strings_view(out@);
        let ghost rest = name_servers_from(s@, next as int);
        match regex_first_group(pattern.as_str(), line.as_str()) {
            Some(host) => {
                let lower = lower_string(host.as_str());
                out.push(lower);
                assert(strings_view(out@) =~= before.push(lowered(host@)));
                assert(before + (seq![lowered(host@)] + rest) =~= strings_view(out@) + rest);
            },
            None => {},
        }
        from = next;
    }
    assert(strings_view(out@) + Seq::<Seq<char>>::empty() =~= strings_view(out@));
    out
}

/// Reads a WHOIS answer for a domain name.
///
/// The result is `None` where the answer is taken to say that the domain does
/// not exist. The patterns do not know every registry: a registered domain
/// may be taken for a missing one.
pub fn parse(raw: &str, table: &SuffixTable, mode: DateMode) -> (r: Option<Domain>)
    ensures
        domain_opt_view(r) == parsed(table@, mode, raw@),
        regex_is_match(not_found_pattern(), raw@) ==> r is None,
{
    if not_found(raw) {
        return None;
    }
    let chars = chars_of(raw);
    let unix = replace_all(&chars, &chars_of("\r\n"), &chars_of("\n"));
    let joined = replace_all(&unix, &chars_of(":\n"), &chars_of(":"));
    assert(joined@.subrange(0, joined@.len() as int) =~= joined@);
    let text = string_of(&joined, 0, joined.len());
    let name = match parse_name(text.as_str()) {
        Some(name) => name,
        None => {
            return None;
        },
    };
    let row = match table.lookup_normalized(name.as_str()) {
        Some(row) => row,
        None => {
            return None;
        },
    };
    let suffix = table.suffix(row).clone();
    let suffix_chars = chars_of(suffix.as_str());
    if same(&suffix_chars, &chars_of(CONNECT_ONLY_SUFFIX)) {
        if !has_within(&joined, &chars_of(CONNECT_MARKER)) {
            return None;
        }
        let bare = Domain { name, suffix, created: None, expiry: None, name_servers: Vec::new() };
        assert(bare@.name_servers =~= Seq::<Seq<char>>::empty());
        return Some(bare);
    }
    let created = parse_created(text.as_str(), mode);
    let expiry = parse_expiry(text.as_str(), mode);
    let name_servers = parse_ns(text.as_str());
    Some(Domain { name, suffix, created, expiry, name_servers })
}

} // verus!
