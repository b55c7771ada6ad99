//! The suffix table: which WHOIS server answers for which domain suffix.

use vstd::prelude::*;
use vstd::string::StringExecFns;
use crate::text::{
    chars_of, ends_with, has_suffix, is_ascii_alpha, label_start, lower_chars, lowered,
    rightmost_label_start, same, string_of, ascii_alpha, occurs_at,
};
use crate::outside::{opt_view, punycode_encode, punycode_of};

verus! {

/// One row of the table: a suffix and, where one is known, its server.
#[derive(Clone, Debug, PartialEq, Eq)]
pub struct SuffixEntry {
    pub suffix: String,
    pub server: Option<String>,
}

/// What a row holds, as plain sequences.
pub ghost struct EntryView {
    pub suffix: Seq<char>,
    pub server: Option<Seq<char>>,
}

impl View for SuffixEntry {
    type V = EntryView;

    open spec fn view(&self) -> EntryView {
        EntryView { suffix: self.suffix@, server: opt_view(self.server) }
    }
}

/// A name falls under a suffix where it ends with it, letter case aside.
pub open spec fn falls_under(name: Seq<char>, suffix: Seq<char>) -> bool {
    ends_with(lowered(name), lowered(suffix))
}

/// The first row at or behind `from` under whose suffix `name` falls.
pub open spec fn first_match_from(table: Seq<EntryView>, name: Seq<char>, from: int) -> Option<int>
    decreases table.len() - from,
{
    if from < 0 || from >= table.len() {
        None
    } else if falls_under(name, table[from].suffix) {
        Some(from)
    } else {
        first_match_from(table, name, from + 1)
    }
}

/// The first row of the table under whose suffix `name` falls: table order is
/// precedence.
pub open spec fn first_match(table: Seq<EntryView>, name: Seq<char>) -> Option<int> {
    first_match_from(table, name, 0)
}

/// The longest label that is handed to the punycode encoder: the length limit
/// of a DNS label.
pub const MAX_LABEL: usize = 63;

pub open spec fn ace_prefix() -> Seq<char> {
    seq!['x', 'n', '-', '-']
}

/// A name whose rightmost label is replaced by `xn--` and `encoded`.
pub open spec fn with_encoded_label(name: Seq<char>, encoded: Seq<char>) -> Seq<char> {
    name.subrange(0, label_start(name)) + ace_prefix() + encoded
}

/// The name by which the table is searched. A rightmost label that starts
/// with an ASCII letter is kept; any other is punycode-encoded behind `xn--`.
/// There is none where that label is empty, longer than a DNS label may be,
/// or refused by the encoder.
pub open spec fn normalized(name: Seq<char>) -> Option<Seq<char>> {
    let label = name.subrange(label_start(name), name.len() as int);
    if label.len() == 0 {
        None
    } else if is_ascii_alpha(label[0]) {
        Some(name)
    } else if label.len() > MAX_LABEL {
        None
    } else {
        match punycode_of(label) {
            Some(encoded) => Some(with_encoded_label(name, encoded)),
            None => None,
        }
    }
}

/// The first row under which the normalized name falls; none where the name
/// has no normalized form.
pub open spec fn normalized_match(table: Seq<EntryView>, name: Seq<char>) -> Option<int> {
    match normalized(name) {
        Some(n) => first_match(table, n),
        None => None,
    }
}

/// The row that answers for `name`. A name whose rightmost label is empty
/// has nothing to encode and is searched as it stands; any other is
/// normalized first.
pub open spec fn resolved(table: Seq<EntryView>, name: Seq<char>) -> Option<int> {
    if label_start(name) == name.len() {
        first_match(table, name)
    } else {
        normalized_match(table, name)
    }
}

/// An ordered map from suffix to server: no suffix occurs twice, and the rows
/// keep the order in which they were added, which is their order of
/// precedence. The table is filled once and then only read.
#[derive(Clone, Debug, PartialEq, Eq)]
pub struct SuffixTable {
    entries: Vec<SuffixEntry>,
}

impl View for SuffixTable {
    type V = Seq<EntryView>;

    closed spec fn view(&self) -> Seq<EntryView> {
        Seq::new(self.entries@.len(), |i: int| self.entries@[i]@)
    }
}

/// No suffix occurs twice, and every suffix is in lower case.
pub open spec fn well_formed(table: Seq<EntryView>) -> bool {
    &&& forall|i: int, j: int|
        0 <= i < j < table.len() ==> table[i].suffix != table[j].suffix
    &&& forall|i: int| 0 <= i < table.len() ==> lowered(#[trigger] table[i].suffix) == table[i].suffix
}

pub open spec fn holds_suffix(table: Seq<EntryView>, suffix: Seq<char>) -> bool {
    exists|i: int| 0 <= i < table.len() && #[trigger] table[i].suffix == suffix
}

/// The table with one more row at its end, the suffix in lower case; the
/// table itself where it already has that suffix.
pub open spec fn inserted(table: Seq<EntryView>, suffix: Seq<char>, server: Option<Seq<char>>) -> Seq<
    EntryView,
> {
    let key = lowered(suffix);
    if holds_suffix(table, key) {
        table
    } else {
        table.push(EntryView { suffix: key, server })
    }
}

impl SuffixTable {
    /// What every table keeps: see `well_formed`.
    pub open spec fn wf(&self) -> bool {
        well_formed(self@)
    }

    pub fn new() -> (r: SuffixTable)
        ensures
            r@ == Seq::<EntryView>::empty(),
            r.wf(),
    {
        let r = SuffixTable { entries: Vec::new() };
        assert(r@ =~= Seq::<EntryView>::empty());
        r
    }

    pub fn len(&self) -> (r: usize)
        ensures
            r == self@.len(),
    {
        self.entries.len()
    }

    pub fn suffix(&self, i: usize) -> (r: &String)
        requires
            i < self@.len(),
        ensures
            r@ == self@[i as int].suffix,
    {
        &self.entries[i].suffix
    }

    pub fn server(&self, i: usize) -> (r: &Option<String>)
        requires
            i < self@.len(),
        ensures
            opt_view(*r) == self@[i as int].server,
    {
        &self.entries[i].server
    }

    /// Whether some row has exactly this suffix.
    pub fn has(&self, suffix: &str) -> (r: bool)
        ensures
            r == holds_suffix(self@, suffix@),
    {
        let wanted = chars_of(suffix);
        let mut i: usize = 0;
        while i < self.entries.len()
            invariant
                i <= self.entries.len(),
                wanted@ == suffix@,
                forall|j: int| 0 <= j < i ==> self@[j].suffix != suffix@,
            decreases self.entries.len() - i,
        {
            let have = chars_of(self.entries[i].suffix.as_str());
            if same(&have, &wanted) {
                assert(self@[i as int].suffix == suffix@);
                return true;
            }
            i = i + 1;
        }
        false
    }

    /// Appends a row, its suffix put in lower case, unless the table already
    /// has that suffix: its first row stays the one that counts.
    pub fn insert(&mut self, suffix: &str, server: Option<String>) -> (added: bool)
        requires
            old(self).wf(),
        ensures
            final(self).wf(),
            added == !holds_suffix(old(self)@, lowered(suffix@)),
            final(self)@ == inserted(old(self)@, suffix@, opt_view(server)),
    {
        let chars = chars_of(suffix);
        let lower = lower_chars(&chars);
        assert(lower@.subrange(0, lower@.len() as int) =~= lower@);
        let key = string_of(&lower, 0, lower.len());
        if self.has(key.as_str()) {
            return false;
        }
        let ghost before = self@;
        let entry = SuffixEntry { suffix: key, server };
        self.entries.push(entry);
        assert(self@ =~= before.push(EntryView { suffix: lowered(suffix@), server: opt_view(server) }));
        assert(lowered(lowered(suffix@)) =~= lowered(suffix@));
        true
    }

    /// The first row under whose suffix `name`, taken as it is, falls.
    pub fn lookup(&self, name: &str) -> (r: Option<usize>)
        ensures
            match r {
                Some(i) => first_match(self@, name@) == Some(i as int) && i < self@.len(),
                None => first_match(self@, name@) is None,
            },
    {
        let chars = chars_of(name);
        let lower = lower_chars(&chars);
        let mut i: usize = 0;
        while i < self.entries.len()
            invariant
                i <= self.entries.len(),
                lower@ == lowered(name@),
                first_match(self@, name@) == first_match_from(self@, name@, i as int),
            decreases self.entries.len() - i,
        {
            let suffix = chars_of(self.entries[i].suffix.as_str());
            let suffix_lower = lower_chars(&suffix);
            if has_suffix(&lower, &suffix_lower) {
                return Some(i);
            }
            i = i + 1;
        }
        None
    }

    /// The first row under which the normalized name falls.
    pub fn lookup_normalized(&self, name: &str) -> (r: Option<usize>)
        ensures
            match r {
                Some(i) => normalized_match(self@, name@) == Some(i as int) && i < self@.len(),
                None => normalized_match(self@, name@) is None,
            },
    {
        match normalize_name(name) {
            Some(n) => self.lookup(n.as_str()),
            None => None,
        }
    }

    /// The row that answers for `name`; see `resolved`.
    pub fn resolve(&self, name: &str) -> (r: Option<usize>)
        ensures
            match r {
                Some(i) => resolved(self@, name@) == Some(i as int) && i < self@.len(),
                None => resolved(self@, name@) is None,
            },
    {
        let chars = chars_of(name);
        if rightmost_label_start(&chars) == chars.len() {
            self.lookup(name)
        } else {
            self.lookup_normalized(name)
        }
    }
}

/// Puts `xn--` and an encoded label in the place of the rightmost label.
pub fn rebuild_name(name: &Vec<char>, encoded: &str) -> (r: String)
    ensures
        r@ == with_encoded_label(name@, encoded@),
{
    let start = rightmost_label_start(name);
    let mut out = string_of(name, 0, start);
    out.append("xn--");
    proof {
        reveal_strlit("xn--");
        assert("xn--"@ =~= ace_prefix());
    }
    out.append(encoded);
    out
}

/// The name by which the table is searched; see `normalized`.
pub fn normalize_name(name: &str) -> (r: Option<String>)
    ensures
        opt_view(r) == normalized(name@),
{
    let chars = chars_of(name);
    let start = rightmost_label_start(&chars);
    if start == chars.len() {
        return None;
    }
    assert(chars@.subrange(start as int, chars@.len() as int)[0] == chars@[start as int]);
    if ascii_alpha(chars[start]) {
        return Some(string_of(&chars, 0, chars.len()));
    }
    if chars.len() - start > MAX_LABEL {
        return None;
    }
    let label = string_of(&chars, start, chars.len());
    match punycode_encode(label.as_str()) {
        Some(encoded) => Some(rebuild_name(&chars, encoded.as_str())),
        None => None,
    }
}

/// A name made of any label and a suffix of the table resolves to that row,
/// provided that it falls under no earlier row's suffix.
pub proof fn lemma_lookup_routes(table: Seq<EntryView>, label: Seq<char>, i: int)
    requires
        0 <= i < table.len(),
        forall|j: int| 0 <= j < i ==> !falls_under(label + table[i].suffix, #[trigger] table[j].suffix),
    ensures
        first_match(table, label + table[i].suffix) == Some(i),
{
    let name = label + table[i].suffix;
    let suffix = table[i].suffix;
    assert(lowered(name).subrange(lowered(name).len() - lowered(suffix).len(), lowered(name).len() as int)
        =~= lowered(suffix));
    lemma_first_match_skips(table, name, 0, i);
}

/// Where the rightmost label does not start with an ASCII letter, the name
/// by which the table is searched keeps everything in front of that label and
/// goes on with `xn--`.
pub proof fn lemma_normalized_has_ace_prefix(name: Seq<char>)
    ensures
        ({
            let start = label_start(name);
            start < name.len() && !is_ascii_alpha(name[start]) ==> (normalized(name) matches Some(n)
                ==> n.subrange(0, start) == name.subrange(0, start) && occurs_at(
                n,
                start,
                ace_prefix(),
            ))
        }),
        ({
            let start = label_start(name);
            start < name.len() && is_ascii_alpha(name[start]) ==> normalized(name) == Some(name)
        }),
{
    lemma_label_start_bounds(name);
    let start = label_start(name);
    if start < name.len() {
        let label = name.subrange(start, name.len() as int);
        assert(label[0] == name[start]);
        if !is_ascii_alpha(name[start]) {
            if let Some(n) = normalized(name) {
                let encoded = punycode_of(label)->0;
                let head = name.subrange(0, start);
                assert(n == head + ace_prefix() + encoded);
                assert(n.subrange(0, start) =~= head);
                assert(n.subrange(start, start + ace_prefix().len()) =~= ace_prefix());
            }
        }
    }
}

proof fn lemma_label_start_bounds(s: Seq<char>)
    ensures
        0 <= label_start(s) <= s.len(),
    decreases s.len(),
{
    if s.len() > 0 && s.last() != '.' {
        lemma_label_start_bounds(s.drop_last());
    }
}

/// The same of the whole routing, where the name's rightmost label starts
/// with an ASCII letter, so that the name is searched as it stands.
pub proof fn lemma_resolve_routes(table: Seq<EntryView>, label: Seq<char>, i: int)
    requires
        0 <= i < table.len(),
        forall|j: int| 0 <= j < i ==> !falls_under(label + table[i].suffix, #[trigger] table[j].suffix),
        label_start(label + table[i].suffix) < (label + table[i].suffix).len(),
        is_ascii_alpha((label + table[i].suffix)[label_start(label + table[i].suffix)]),
    ensures
        resolved(table, label + table[i].suffix) == Some(i),
{
    lemma_normalized_has_ace_prefix(label + table[i].suffix);
    lemma_lookup_routes(table, label, i);
}

proof fn lemma_first_match_skips(table: Seq<EntryView>, name: Seq<char>, from: int, i: int)
    requires
        0 <= from <= i < table.len(),
        falls_under(name, table[i].suffix),
        forall|j: int| from <= j < i ==> !falls_under(name, #[trigger] table[j].suffix),
    ensures
        first_match_from(table, name, from) == Some(i),
    decreases i - from,
{
    if from < i {
        lemma_first_match_skips(table, name, from + 1, i);
    }
}

} // verus!
