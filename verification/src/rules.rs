//! The rules by which the fields of an answer are found.
//!
//! Each field has a list of labels, one entry for each dialect, written as
//! regular expressions. A field's pattern is made of a head, the labels with a
//! bar between each two, and a tail that captures the value; so a new dialect
//! is one more entry in a list. The order of a list is the order in which the
//! labels are tried at one place of the text.

use vstd::prelude::*;
use vstd::string::StringExecFns;

verus! {

/// The views of a list of strings.
pub open spec fn texts(v: Seq<&'static str>) -> Seq<Seq<char>> {
    Seq::new(v.len(), |i: int| v[i]@)
}

/// The entries with a bar between each two.
pub open spec fn alternation(entries: Seq<Seq<char>>) -> Seq<char>
    decreases entries.len(),
{
    if entries.len() == 0 {
        Seq::empty()
    } else if entries.len() == 1 {
        entries[0]
    } else {
        alternation(entries.drop_last()) + seq!['|'] + entries.last()
    }
}

/// A field's pattern: head, labels, tail.
pub open spec fn field_pattern(head: Seq<char>, labels: Seq<Seq<char>>, tail: Seq<char>) -> Seq<char> {
    head + alternation(labels) + tail
}

/// Writes a field's pattern out.
pub fn assemble(head: &str, labels: &Vec<&'static str>, tail: &str) -> (r: String)
    ensures
        r@ == field_pattern(head@, texts(labels@), tail@),
{
    let ghost all = texts(labels@);
    let mut out = String::from_str(head);
    let mut i: usize = 0;
    assert(all.subrange(0, 0) =~= Seq::<Seq<char>>::empty());
    while i < labels.len()
        invariant
            i <= labels.len(),
            all == texts(labels@),
            out@ == head@ + alternation(all.subrange(0, i as int)),
        decreases labels.len() - i,
    {
        let ghost before = out@;
        let ghost done = all.subrange(0, i as int);
        let ghost next = all.subrange(0, i + 1);
        assert(next.drop_last() =~= done);
        assert(next.last() == labels@[i as int]@);
        if i > 0 {
            proof {
                reveal_strlit("|");
                assert("|"@ =~= seq!['|']);
            }
            out.append("|");
            out.append(labels[i]);
            assert(out@ =~= head@ + (alternation(done) + seq!['|'] + next.last()));
        } else {
            out.append(labels[i]);
            assert(alternation(done) =~= Seq::<char>::empty());
            assert(out@ =~= head@ + next[0]);
        }
        i = i + 1;
    }
    assert(all.subrange(0, labels@.len() as int) =~= all);
    out.append(tail);
    out
}

/// `No match found`, `no entries found` and their like.
pub const NO_WORD_FOUND: &'static str = r"[Nn]o \w+ [Ff]ound";

/// The answer of IANA's server.
pub const ZERO_OBJECTS: &'static str = r"returned 0 objects";

/// The two words in capitals.
pub const NOT_FOUND_CAPITALS: &'static str = r"NOT FOUND";

pub const NOT_FOUND_HEAD: &'static str = r"(";

pub const NOT_FOUND_TAIL: &'static str = r")";

pub open spec fn not_found_label_list() -> Seq<Seq<char>> {
    seq![NO_WORD_FOUND@, ZERO_OBJECTS@, NOT_FOUND_CAPITALS@]
}

/// The phrases by which a registry says that it has no such domain: the pattern.
pub open spec fn not_found_pattern() -> Seq<char> {
    field_pattern(NOT_FOUND_HEAD@, not_found_label_list(), NOT_FOUND_TAIL@)
}

/// The phrases by which a registry says that it has no such domain, one entry for each dialect.
pub fn not_found_labels() -> (r: Vec<&'static str>)
    ensures
        texts(r@) == not_found_label_list(),
{
    let mut v: Vec<&'static str> = Vec::new();
    v.push(NO_WORD_FOUND);
    v.push(ZERO_OBJECTS);
    v.push(NOT_FOUND_CAPITALS);
    assert(texts(v@) =~= not_found_label_list());
    v
}

pub fn not_found_pattern_text() -> (r: String)
    ensures
        r@ == not_found_pattern(),
{
    assemble(NOT_FOUND_HEAD, &not_found_labels(), NOT_FOUND_TAIL)
}

/// `Domain Name:`, `domain name.....:`, `Domain: Name`.
pub const NAME_DOMAIN_NAME: &'static str = r"[Dd]omain:?\s*[Nn]ame\s*[:.\]]*";

/// `domain:` and `Domain`.
pub const NAME_DOMAIN: &'static str = r"[Dd]omain\s*:?";

/// `DOMAIN NAME:`.
pub const NAME_CAPITALS: &'static str = r"DOMAIN\s+NAME:";

/// `Domain......:`.
pub const NAME_DOTTED: &'static str = r"[Dd]omain\.+:";

/// French.
pub const NAME_FRENCH: &'static str = r"Nom de domaine:";

/// Spanish.
pub const NAME_SPANISH: &'static str = r"NOMBRE DE DOMINIO:";

/// A header line in place of a label.
pub const NAME_HEADER: &'static str = r"Informations about";

pub const NAME_HEAD: &'static str = r"(?m)^.*(?:";

pub const NAME_TAIL: &'static str = r")\W*([\w.-]+\.(?:[Xx][Nn]--[\w-]+|\w+))";

pub open spec fn name_label_list() -> Seq<Seq<char>> {
    seq![NAME_DOMAIN_NAME@, NAME_DOMAIN@, NAME_CAPITALS@, NAME_DOTTED@, NAME_FRENCH@, NAME_SPANISH@, NAME_HEADER@]
}

/// The label in front of the domain name: the pattern.
pub open spec fn name_pattern() -> Seq<char> {
    field_pattern(NAME_HEAD@, name_label_list(), NAME_TAIL@)
}

/// The label in front of the domain name, one entry for each dialect.
pub fn name_labels() -> (r: Vec<&'static str>)
    ensures
        texts(r@) == name_label_list(),
{
    let mut v: Vec<&'static str> = Vec::new();
    v.push(NAME_DOMAIN_NAME);
    v.push(NAME_DOMAIN);
    v.push(NAME_CAPITALS);
    v.push(NAME_DOTTED);
    v.push(NAME_FRENCH);
    v.push(NAME_SPANISH);
    v.push(NAME_HEADER);
    assert(texts(v@) =~= name_label_list());
    v
}

pub fn name_pattern_text() -> (r: String)
    ensures
        r@ == name_pattern(),
{
    assemble(NAME_HEAD, &name_labels(), NAME_TAIL)
}

/// `Creation Date`, `Created On`, `Registered on`, `Registration Time` and their like.
pub const CREATED_OR_REGISTERED: &'static str = r"(?:[Cc]reat(?:ion|ed)|[Rr]egist(?:ered|ration))\s*(?:[Dd]ate|[Oo]n|[Tt]ime)?";

/// One word.
pub const CREATED_DATEREGISTERED: &'static str = r"dateregistered";

/// `Activation` and `activation`.
pub const CREATED_ACTIVATION: &'static str = r"[Aa]ctivation";

/// Spanish.
pub const CREATED_SPANISH: &'static str = r"Fecha de activación";

/// `activated`.
pub const CREATED_ACTIVATED: &'static str = r"activated";

/// French.
pub const CREATED_FRENCH: &'static str = r"création";

pub const CREATED_HEAD: &'static str = r"(?m)^.*[(]?(?:";

pub const CREATED_TAIL: &'static str = r")\W*(\d[0-9TZ.:-]+|\w+\s+\w*\d+\w+)";

pub open spec fn created_label_list() -> Seq<Seq<char>> {
    seq![CREATED_OR_REGISTERED@, CREATED_DATEREGISTERED@, CREATED_ACTIVATION@, CREATED_SPANISH@, CREATED_ACTIVATED@, CREATED_FRENCH@]
}

/// The label in front of the date of registration: the pattern.
pub open spec fn created_pattern() -> Seq<char> {
    field_pattern(CREATED_HEAD@, created_label_list(), CREATED_TAIL@)
}

/// The label in front of the date of registration, one entry for each dialect.
pub fn created_labels() -> (r: Vec<&'static str>)
    ensures
        texts(r@) == created_label_list(),
{
    let mut v: Vec<&'static str> = Vec::new();
    v.push(CREATED_OR_REGISTERED);
    v.push(CREATED_DATEREGISTERED);
    v.push(CREATED_ACTIVATION);
    v.push(CREATED_SPANISH);
    v.push(CREATED_ACTIVATED);
    v.push(CREATED_FRENCH);
    assert(texts(v@) =~= created_label_list());
    v
}

pub fn created_pattern_text() -> (r: String)
    ensures
        r@ == created_pattern(),
{
    assemble(CREATED_HEAD, &created_labels(), CREATED_TAIL)
}

/// `Expiry Date`, `Expiration Time`, `Expires On`, `expire` and their like.
pub const EXPIRY_EXPIRES: &'static str = r"[Ee]xpir(?:y|ation|es?)\s*(?:[Dd]ate|[Tt]ime|[Oo]n|)";

/// `Exp date`.
pub const EXPIRY_SHORT: &'static str = r"[Ee]xp [Dd]ate";

/// `Renewal date`.
pub const EXPIRY_RENEWAL: &'static str = r"[Rr]enewal [Dd]ate";

/// One word.
pub const EXPIRY_BILLED: &'static str = r"datebilleduntil";

/// `paid-till`.
pub const EXPIRY_PAID: &'static str = r"paid-till";

/// `Validity:`.
pub const EXPIRY_VALIDITY: &'static str = r"[Vv]alidity:";

/// `Valid Until`.
pub const EXPIRY_VALID_UNTIL: &'static str = r"[Vv]alid [Uu]ntil";

/// Spanish.
pub const EXPIRY_SPANISH: &'static str = r"Fecha de corte";

pub const EXPIRY_HEAD: &'static str = r"(?m)^.*(?:";

pub const EXPIRY_TAIL: &'static str = r")\W*([0-9A-Za-z:. -]+\d[0-9A-Za-z:. -]+)";

pub open spec fn expiry_label_list() -> Seq<Seq<char>> {
    seq![EXPIRY_EXPIRES@, EXPIRY_SHORT@, EXPIRY_RENEWAL@, EXPIRY_BILLED@, EXPIRY_PAID@, EXPIRY_VALIDITY@, EXPIRY_VALID_UNTIL@, EXPIRY_SPANISH@]
}

/// The label in front of the date of expiry: the pattern.
pub open spec fn expiry_pattern() -> Seq<char> {
    field_pattern(EXPIRY_HEAD@, expiry_label_list(), EXPIRY_TAIL@)
}

/// The label in front of the date of expiry, one entry for each dialect.
pub fn expiry_labels() -> (r: Vec<&'static str>)
    ensures
        texts(r@) == expiry_label_list(),
{
    let mut v: Vec<&'static str> = Vec::new();
    v.push(EXPIRY_EXPIRES);
    v.push(EXPIRY_SHORT);
    v.push(EXPIRY_RENEWAL);
    v.push(EXPIRY_BILLED);
    v.push(EXPIRY_PAID);
    v.push(EXPIRY_VALIDITY);
    v.push(EXPIRY_VALID_UNTIL);
    v.push(EXPIRY_SPANISH);
    assert(texts(v@) =~= expiry_label_list());
    v
}

pub fn expiry_pattern_text() -> (r: String)
    ensures
        r@ == expiry_pattern(),
{
    assemble(EXPIRY_HEAD, &expiry_labels(), EXPIRY_TAIL)
}

/// `nserver` and `Nservers`.
pub const SERVER_NSERVER: &'static str = r"[Nn]servers?";

/// `Name Server`, `nameservers` and their like.
pub const SERVER_NAME_SERVER: &'static str = r"[Nn]ame\s*[Ss]ervers?";

/// `DNS:`.
pub const SERVER_DNS: &'static str = r"DNS:";

pub const NAME_SERVER_HEAD: &'static str = r"(?:";

pub const NAME_SERVER_TAIL: &'static str = r")\W+([0-9a-zA-Z.-]+)";

pub open spec fn name_server_label_list() -> Seq<Seq<char>> {
    seq![SERVER_NSERVER@, SERVER_NAME_SERVER@, SERVER_DNS@]
}

/// The label in front of a name server: the pattern.
pub open spec fn name_server_pattern() -> Seq<char> {
    field_pattern(NAME_SERVER_HEAD@, name_server_label_list(), NAME_SERVER_TAIL@)
}

/// The label in front of a name server, one entry for each dialect.
pub fn name_server_labels() -> (r: Vec<&'static str>)
    ensures
        texts(r@) == name_server_label_list(),
{
    let mut v: Vec<&'static str> = Vec::new();
    v.push(SERVER_NSERVER);
    v.push(SERVER_NAME_SERVER);
    v.push(SERVER_DNS);
    assert(texts(v@) =~= name_server_label_list());
    v
}

pub fn name_server_pattern_text() -> (r: String)
    ensures
        r@ == name_server_pattern(),
{
    assemble(NAME_SERVER_HEAD, &name_server_labels(), NAME_SERVER_TAIL)
}

} // verus!
