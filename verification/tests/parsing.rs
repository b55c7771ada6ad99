use whos::domain::{
    not_found, parse, parse_created, parse_datetime, parse_expiry, parse_name, parse_ns,
    pick_instant, lower_string, DateMode, DateValue, Domain,
};
use whos::rules::{
    assemble, created_pattern_text, expiry_pattern_text, name_labels, name_pattern_text,
    name_server_labels, name_server_pattern_text, not_found_pattern_text,
};
use whos::suffix::SuffixTable;

fn table() -> SuffixTable {
    let mut t = SuffixTable::new();
    assert!(t.insert(".co.uk", Some("whois.nic.uk".to_string())));
    assert!(t.insert(".com", Some("whois.verisign-grs.com".to_string())));
    assert!(t.insert(".org", Some("whois.pir.org".to_string())));
    assert!(t.insert(".de", Some("whois.denic.de".to_string())));
    assert!(t.insert(".uk", None));
    assert!(t.insert(".xn--fiqs8s", Some("cwhois.cnnic.cn".to_string())));
    t
}

#[test]
fn not_found_phrase_wins_over_fields() {
    let raw = "Domain Name: EXAMPLE.COM\nName Server: NS1.EXAMPLE.COM\nNo entries found\n";
    assert_eq!(parse(raw, &table(), DateMode::Raw), None);
}

#[test]
fn not_found_phrases() {
    assert!(not_found("No entries found"));
    assert!(not_found("no match Found for this"));
    assert!(not_found("% This query returned 0 objects."));
    assert!(not_found("NOT FOUND"));
    assert!(!not_found("not found"));
    assert!(!not_found("Domain Name: EXAMPLE.COM"));
    assert!(!not_found("No found"));
}

#[test]
fn name_and_name_server() {
    let raw = "Domain Name: EXAMPLE.COM\nName Server: NS1.EXAMPLE.COM\n";
    let d = parse(raw, &table(), DateMode::Raw).unwrap();
    assert_eq!(d.name, "example.com");
    assert_eq!(d.suffix, ".com");
    assert_eq!(d.name_servers, vec!["ns1.example.com".to_string()]);
    assert_eq!(d.created, None);
    assert_eq!(d.expiry, None);
}

#[test]
fn created_in_both_modes() {
    let raw = "Domain Name: EXAMPLE.COM\nCreation Date: 2021-05-03T04:00:00Z\n";
    let structured = parse(raw, &table(), DateMode::Structured).unwrap();
    assert_eq!(structured.created, Some(DateValue::Utc { seconds: 1620014400, nanos: 0 }));
    let plain = parse(raw, &table(), DateMode::Raw).unwrap();
    assert_eq!(plain.created, Some(DateValue::Raw("2021-05-03T04:00:00Z".to_string())));
}

#[test]
fn offset_is_moved_to_utc() {
    assert_eq!(
        parse_datetime("2021-05-03T06:00:00.5+02:00", DateMode::Structured),
        DateValue::Utc { seconds: 1620014400, nanos: 500_000_000 }
    );
}

#[test]
fn dotted_date_is_midnight_utc() {
    assert_eq!(
        parse_datetime("03.05.2021", DateMode::Structured),
        DateValue::Utc { seconds: 1620000000, nanos: 0 }
    );
    assert_eq!(
        parse_datetime("01.01.1970", DateMode::Structured),
        DateValue::Utc { seconds: 0, nanos: 0 }
    );
    assert_eq!(
        parse_datetime("31.12.1969", DateMode::Structured),
        DateValue::Utc { seconds: -86400, nanos: 0 }
    );
    assert_eq!(parse_datetime("03.05.2021", DateMode::Raw), DateValue::Raw("03.05.2021".to_string()));
    assert_eq!(
        parse_created("created: 03.05.2021\n", DateMode::Structured),
        Some(DateValue::Utc { seconds: 1620000000, nanos: 0 })
    );
}

#[test]
fn unreadable_date_stays_text_in_structured_mode() {
    assert_eq!(
        parse_datetime("3 May 2021", DateMode::Structured),
        DateValue::Raw("3 May 2021".to_string())
    );
    assert_eq!(parse_datetime("31.02.2021", DateMode::Structured), DateValue::Raw("31.02.2021".to_string()));
    assert_eq!(parse_datetime("", DateMode::Structured), DateValue::Raw("".to_string()));
    assert_eq!(
        parse_expiry("paid-till: 2025-01-31\n", DateMode::Structured),
        Some(DateValue::Raw("2025-01-31".to_string()))
    );
}

#[test]
fn pick_instant_prefers_the_first_reader() {
    assert_eq!(pick_instant(Some((1, 2)), Some(719_164)), Some(DateValue::Utc { seconds: 1, nanos: 2 }));
    assert_eq!(pick_instant(None, Some(719_164)), Some(DateValue::Utc { seconds: 86_400, nanos: 0 }));
    assert_eq!(pick_instant(None, Some(719_163)), Some(DateValue::Utc { seconds: 0, nanos: 0 }));
    assert_eq!(
        pick_instant(None, Some(i32::MIN)),
        Some(DateValue::Utc { seconds: (i32::MIN as i64 - 719_163) * 86_400, nanos: 0 })
    );
    assert_eq!(pick_instant(None, None), None);
}

#[test]
fn expiry_dialects() {
    assert_eq!(
        parse_expiry("Registry Expiry Date: 2022-05-03T04:00:00Z\n", DateMode::Raw),
        Some(DateValue::Raw("2022-05-03T04:00:00Z".to_string()))
    );
    assert_eq!(
        parse_expiry("paid-till: 2025-01-31\n", DateMode::Raw),
        Some(DateValue::Raw("2025-01-31".to_string()))
    );
    assert_eq!(parse_expiry("nothing of the kind\n", DateMode::Raw), None);
}

#[test]
fn created_dialects() {
    assert_eq!(
        parse_created("Registered on: March 10th\n", DateMode::Raw),
        Some(DateValue::Raw("March 10th".to_string()))
    );
    assert_eq!(
        parse_created("Registration Time: 2021-05-03 04:00:00\n", DateMode::Raw),
        Some(DateValue::Raw("2021-05-03".to_string()))
    );
    assert_eq!(
        parse_created("created: 1999-03-10T05:00:00Z\n", DateMode::Raw),
        Some(DateValue::Raw("1999-03-10T05:00:00Z".to_string()))
    );
    assert_eq!(parse_created("Domain Name: EXAMPLE.COM\n", DateMode::Raw), None);
}

#[test]
fn name_dialects() {
    assert_eq!(parse_name("Domain Name: EXAMPLE.COM"), Some("example.com".to_string()));
    assert_eq!(parse_name("domain:       Debian.ORG"), Some("debian.org".to_string()));
    assert_eq!(parse_name("DOMAIN NAME: a-b.example.co.uk"), Some("a-b.example.co.uk".to_string()));
    assert_eq!(parse_name("Nom de domaine: exemple.fr"), Some("exemple.fr".to_string()));
    assert_eq!(parse_name("Domain: test.XN--FIQS8S"), Some("test.xn--fiqs8s".to_string()));
    assert_eq!(parse_name("nothing here"), None);
    assert_eq!(parse_name(""), None);
}

#[test]
fn name_servers_keep_order_and_repeats() {
    let raw = "nserver: B.example.org\r\nName Server: a.example.org\nother: x\nDNS: B.EXAMPLE.ORG\nnservers  c.example.org.";
    assert_eq!(
        parse_ns(raw),
        vec![
            "b.example.org".to_string(),
            "a.example.org".to_string(),
            "b.example.org".to_string(),
            "c.example.org.".to_string()
        ]
    );
    assert_eq!(parse_ns(""), Vec::<String>::new());
    assert_eq!(parse_ns("\n\n"), Vec::<String>::new());
}

#[test]
fn name_server_label_and_value_on_two_lines_are_two_lines() {
    assert_eq!(parse_ns("Name Server\nns1.example.org\n"), Vec::<String>::new());
}

#[test]
fn value_below_its_label_is_pulled_up() {
    let raw = "Domain name:\r\nexample.co.uk\r\nName servers:\r\nns1.example.co.uk\r\n";
    let d = parse(raw, &table(), DateMode::Raw).unwrap();
    assert_eq!(d.name, "example.co.uk");
    assert_eq!(d.suffix, ".co.uk");
    assert_eq!(d.name_servers, vec!["ns1.example.co.uk".to_string()]);
}

#[test]
fn missing_name_is_nonexistence() {
    assert_eq!(parse("Name Server: NS1.EXAMPLE.COM\n", &table(), DateMode::Raw), None);
    assert_eq!(parse("", &table(), DateMode::Raw), None);
}

#[test]
fn unknown_suffix_is_nonexistence() {
    assert_eq!(parse("Domain Name: EXAMPLE.ZZ\n", &table(), DateMode::Raw), None);
}

#[test]
fn connect_only_suffix_with_marker() {
    let raw = "Domain: example.de\nStatus: connect\nNserver: ns1.example.de\nChanged: 2021-05-03T04:00:00Z\n";
    let d = parse(raw, &table(), DateMode::Raw).unwrap();
    assert_eq!(
        d,
        Domain {
            name: "example.de".to_string(),
            suffix: ".de".to_string(),
            created: None,
            expiry: None,
            name_servers: vec![],
        }
    );
}

#[test]
fn connect_only_suffix_without_marker() {
    let raw = "Domain: example.de\nStatus: free\n";
    assert_eq!(parse(raw, &table(), DateMode::Raw), None);
}

#[test]
fn parsing_twice_gives_equal_records() {
    let raw = "Domain Name: EXAMPLE.ORG\nCreation Date: 1999-03-10T05:00:00Z\nRegistry Expiry Date: 2030-03-10T05:00:00Z\nName Server: NS1.EXAMPLE.ORG\nName Server: NS2.EXAMPLE.ORG\n";
    let t = table();
    let first = parse(raw, &t, DateMode::Structured);
    let second = parse(raw, &t, DateMode::Structured);
    assert!(first.is_some());
    assert_eq!(first, second);
    let d = first.unwrap();
    assert_eq!(d.created, Some(DateValue::Utc { seconds: 921042000, nanos: 0 }));
    assert_eq!(d.name_servers.len(), 2);
}

#[test]
fn internationalized_name_in_answer() {
    let raw = "Domain Name: example.中国\n";
    let d = parse(raw, &table(), DateMode::Raw).unwrap();
    assert_eq!(d.name, "example.中国");
    assert_eq!(d.suffix, ".xn--fiqs8s");
}

#[test]
fn lower_string_touches_ascii_letters_only() {
    assert_eq!(lower_string("AbC-19.Zz"), "abc-19.zz");
    assert_eq!(lower_string("ÀB"), "Àb");
    assert_eq!(lower_string(""), "");
}

#[test]
fn patterns_are_made_of_their_labels() {
    assert_eq!(
        not_found_pattern_text(),
        r"([Nn]o \w+ [Ff]ound|returned 0 objects|NOT FOUND)"
    );
    assert_eq!(
        name_pattern_text(),
        r"(?m)^.*(?:[Dd]omain:?\s*[Nn]ame\s*[:.\]]*|[Dd]omain\s*:?|DOMAIN\s+NAME:|[Dd]omain\.+:|Nom de domaine:|NOMBRE DE DOMINIO:|Informations about)\W*([\w.-]+\.(?:[Xx][Nn]--[\w-]+|\w+))"
    );
    assert_eq!(
        created_pattern_text(),
        r"(?m)^.*[(]?(?:(?:[Cc]reat(?:ion|ed)|[Rr]egist(?:ered|ration))\s*(?:[Dd]ate|[Oo]n|[Tt]ime)?|dateregistered|[Aa]ctivation|Fecha de activación|activated|création)\W*(\d[0-9TZ.:-]+|\w+\s+\w*\d+\w+)"
    );
    assert_eq!(
        expiry_pattern_text(),
        r"(?m)^.*(?:[Ee]xpir(?:y|ation|es?)\s*(?:[Dd]ate|[Tt]ime|[Oo]n|)|[Ee]xp [Dd]ate|[Rr]enewal [Dd]ate|datebilleduntil|paid-till|[Vv]alidity:|[Vv]alid [Uu]ntil|Fecha de corte)\W*([0-9A-Za-z:. -]+\d[0-9A-Za-z:. -]+)"
    );
    assert_eq!(
        name_server_pattern_text(),
        r"(?:[Nn]servers?|[Nn]ame\s*[Ss]ervers?|DNS:)\W+([0-9a-zA-Z.-]+)"
    );
    assert_eq!(name_labels().len(), 7);
    assert_eq!(name_server_labels(), vec![r"[Nn]servers?", r"[Nn]ame\s*[Ss]ervers?", "DNS:"]);
    assert_eq!(assemble("<", &vec![], ">"), "<>");
    assert_eq!(assemble("<", &vec!["a"], ">"), "<a>");
    assert_eq!(assemble("<", &vec!["a", "b", "c"], ">"), "<a|b|c>");
}

#[test]
fn more_dialects() {
    assert_eq!(parse_name("Informations about example.fr"), Some("example.fr".to_string()));
    assert_eq!(parse_name("NOMBRE DE DOMINIO: ejemplo.es"), Some("ejemplo.es".to_string()));
    assert_eq!(parse_name("Domain......: example.fi"), Some("example.fi".to_string()));
    assert_eq!(
        parse_created("Fecha de activación: 2001-02-03\n", DateMode::Raw),
        Some(DateValue::Raw("2001-02-03".to_string()))
    );
    assert_eq!(
        parse_created("Date de création: 2001-02-03T04:05:06Z\n", DateMode::Raw),
        Some(DateValue::Raw("2001-02-03T04:05:06Z".to_string()))
    );
    assert_eq!(
        parse_expiry("Fecha de corte: 2031-02-03\n", DateMode::Raw),
        Some(DateValue::Raw("2031-02-03".to_string()))
    );
    assert_eq!(
        parse_expiry("Valid Until: 2031-02-03\n", DateMode::Raw),
        Some(DateValue::Raw("2031-02-03".to_string()))
    );
    assert_eq!(
        parse_expiry("Renewal date: 03.02.2031\n", DateMode::Structured),
        Some(DateValue::Utc { seconds: 1927843200, nanos: 0 })
    );
}
