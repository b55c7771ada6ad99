//! Building the suffix table from the two lists of the whois(1)
//! distribution: the curated list of suffixes with their servers, and the
//! list of new generic top-level domains.

use vstd::prelude::*;
use vstd::string::StringExecFns;
use crate::suffix::{inserted, EntryView, SuffixEntry, SuffixTable};
use crate::text::{
    chars_of, find_either, first_index, has_at, is_space, lemma_first_index_bounds,
    lemma_trimmed_starts_with_text, line_at, line_end,
    line_of, line_stop, occurs_at, replace_all, replaced, same, slice_of, string_of, trim, trimmed,
};

verus! {

/// Which of the two lists a text is.
#[derive(Clone, Copy, Debug, PartialEq, Eq)]
pub enum ListKind {
    /// Lines of a suffix, white space and a server or a tag.
    Curated,
    /// Lines of one top-level label each.
    NewGtlds,
}

pub open spec fn entry_opt_view(e: Option<SuffixEntry>) -> Option<EntryView> {
    match e {
        Some(v) => Some(v@),
        None => None,
    }
}

/// A line without the tags that say nothing of where to ask.
pub open spec fn without_tags(line: Seq<char>) -> Seq<char> {
    replaced(
        replaced(replaced(line, "NONE"@, Seq::empty()), "VERISIGN"@, Seq::empty()),
        "RECURSIVE"@,
        Seq::empty(),
    )
}

/// The zones of reverse DNS have one of two tags in the place of a server;
/// they are no suffixes of domain names.
pub open spec fn is_reverse_zone_tag(field: Seq<char>) -> bool {
    field == "ARPA"@ || field == "IP6"@
}

/// An empty line or a comment.
pub open spec fn is_skipped(line: Seq<char>) -> bool {
    line.len() == 0 || line[0] == '#'
}

/// The server that a line's second field names: none where the field says
/// that the registry answers on the web only.
pub open spec fn server_of(field: Seq<char>) -> Option<Seq<char>> {
    if occurs_at(field, 0, "WEB"@) {
        None
    } else {
        Some(field)
    }
}

/// What a line of the curated list says: the line without its tags, without
/// what follows a `#`, which is comment, and without white space at its ends.
pub open spec fn curated_text(line: Seq<char>) -> Seq<char> {
    let bare = without_tags(line);
    trimmed(bare.subrange(0, first_index(bare, 0, '#', '#')))
}

/// The row that a line of the curated list stands for. The suffix ends at the
/// first blank or tab; what follows is the second field. There is no row
/// where the line says nothing, and none for a zone of reverse DNS.
pub open spec fn curated_entry(line: Seq<char>) -> Option<EntryView> {
    let text = curated_text(line);
    let k = first_index(text, 0, ' ', '\t');
    if text.len() == 0 {
        None
    } else if k < text.len() {
        let field = trimmed(text.subrange(k + 1, text.len() as int));
        if is_reverse_zone_tag(field) {
            None
        } else {
            Some(EntryView { suffix: text.subrange(0, k), server: server_of(field) })
        }
    } else {
        Some(EntryView { suffix: text, server: None })
    }
}

/// The row that a line of the list of new generic top-level domains stands
/// for: the server's name is made from the label.
pub open spec fn gtld_entry(line: Seq<char>) -> Option<EntryView> {
    if is_skipped(line) {
        None
    } else {
        Some(EntryView { suffix: "."@ + line, server: Some("whois.nic."@ + line) })
    }
}

pub open spec fn line_entry(kind: ListKind, line: Seq<char>) -> Option<EntryView> {
    match kind {
        ListKind::Curated => curated_entry(line),
        ListKind::NewGtlds => gtld_entry(line),
    }
}

/// The table after the rows of the lines from `from` on were added to it, in
/// the order of the lines.
pub open spec fn rows_from(table: Seq<EntryView>, kind: ListKind, text: Seq<char>, from: int) -> Seq<
    EntryView,
>
    decreases text.len() - from,
{
    if from < 0 || from >= text.len() {
        table
    } else {
        let end = line_end(text, from);
        let next = match line_entry(kind, line_at(text, from, end)) {
            Some(e) => inserted(table, e.suffix, e.server),
            None => table,
        };
        if from <= end && end < text.len() {
            rows_from(next, kind, text, end + 1)
        } else {
            next
        }
    }
}

/// The table that the two lists give: the curated rows first, the generated
/// ones behind them.
pub open spec fn built(curated: Seq<char>, new_gtlds: Seq<char>) -> Seq<EntryView> {
    rows_from(
        rows_from(Seq::empty(), ListKind::Curated, curated, 0),
        ListKind::NewGtlds,
        new_gtlds,
        0,
    )
}

/// Reads one line of the curated list. A row that it gives has a suffix that
/// is not empty.
pub fn curated_row(line: &Vec<char>) -> (r: Option<SuffixEntry>)
    ensures
        entry_opt_view(r) == curated_entry(line@),
        r matches Some(entry) ==> entry.suffix@.len() > 0,
{
    let nothing: Vec<char> = Vec::new();
    let first = replace_all(line, &chars_of("NONE"), &nothing);
    let second = replace_all(&first, &chars_of("VERISIGN"), &nothing);
    let bare = replace_all(&second, &chars_of("RECURSIVE"), &nothing);
    let cut = find_either(&bare, 0, '#', '#');
    let uncut = slice_of(&bare, 0, cut);
    let text = trim(&uncut);
    if text.len() == 0 {
        return None;
    }
    let k = find_either(&text, 0, ' ', '\t');
    proof {
        lemma_trimmed_starts_with_text(uncut@);
        assert(!is_space(text@[0]));
        lemma_first_index_bounds(text@, 1, ' ', '\t');
    }
    let suffix = string_of(&text, 0, k);
    if k == text.len() {
        assert(text@.subrange(0, k as int) =~= text@);
        return Some(SuffixEntry { suffix, server: None });
    }
    let field = trim(&slice_of(&text, k + 1, text.len()));
    if same(&field, &chars_of("ARPA")) || same(&field, &chars_of("IP6")) {
        return None;
    }
    let server = if has_at(&field, 0, &chars_of("WEB")) {
        None
    } else {
        assert(field@.subrange(0, field@.len() as int) =~= field@);
        Some(string_of(&field, 0, field.len()))
    };
    Some(SuffixEntry { suffix, server })
}

/// Reads one line of the list of new generic top-level domains.
pub fn gtld_row(line: &Vec<char>) -> (r: Option<SuffixEntry>)
    ensures
        entry_opt_view(r) == gtld_entry(line@),
{
    if line.len() == 0 || line[0] == '#' {
        return None;
    }
    assert(line@.subrange(0, line@.len() as int) =~= line@);
    let label = string_of(line, 0, line.len());
    let mut suffix = String::from_str(".");
    suffix.append(label.as_str());
    let mut server = String::from_str("whois.nic.");
    server.append(label.as_str());
    Some(SuffixEntry { suffix, server: Some(server) })
}

/// Adds the rows of a list to the table, line by line. A suffix that the
/// table already has is passed over.
pub fn add_rows(table: &mut SuffixTable, kind: ListKind, text: &str)
    requires
        old(table).wf(),
    ensures
        final(table).wf(),
        final(table)@ == rows_from(old(table)@, kind, text@, 0),
{
    let s = chars_of(text);
    let n: usize = s.len();
    let ghost start = table@;
    let mut from: usize = 0;
    while from < n
        invariant
            from <= n,
            n == s@.len(),
            table.wf(),
            rows_from(start, kind, s@, 0) == rows_from(table@, kind, s@, from as int),
        decreases n - from,
    {
        let end = line_stop(&s, from);
        let line = line_of(&s, from, end);
        let row = match kind {
            ListKind::Curated => curated_row(&line),
            ListKind::NewGtlds => gtld_row(&line),
        };
        match row {
            Some(entry) => {
                table.insert(entry.suffix.as_str(), entry.server);
            },
            None => {},
        }
        from = if end < n {
            end + 1
        } else {
            n
        };
    }
}

/// Builds the table from the texts of the two lists.
pub fn build_table(curated: &str, new_gtlds: &str) -> (r: SuffixTable)
    ensures
        r.wf(),
        r@ == built(curated@, new_gtlds@),
{
    let mut table = SuffixTable::new();
    add_rows(&mut table, ListKind::Curated, curated);
    add_rows(&mut table, ListKind::NewGtlds, new_gtlds);
    table
}

} // verus!
