use whos::suffix::{normalize_name, rebuild_name, SuffixTable};
use whos::text::{
    chars_of, has_at, has_suffix, has_within, lower_chars, replace_all, rightmost_label_start,
    same, string_of,
};
use whos::{conclude, domain, frame, Error, Request, WHOIS_PORT};
use whos::domain::DateMode;

fn table() -> SuffixTable {
    let mut t = SuffixTable::new();
    assert!(t.insert(".co.uk", Some("whois.nic.uk".to_string())));
    assert!(t.insert(".com", Some("whois.verisign-grs.com".to_string())));
    assert!(t.insert(".uk", None));
    assert!(t.insert(".xn--fiqs8s", Some("cwhois.cnnic.cn".to_string())));
    assert!(t.insert("org", Some("whois.pir.org".to_string())));
    t
}

fn chars(s: &str) -> Vec<char> {
    s.chars().collect()
}

#[test]
fn every_suffix_routes_to_its_own_row() {
    let t = table();
    for i in 0..t.len() {
        let name = format!("label{}", t.suffix(i));
        let first = (0..i).find(|&j| name.ends_with(t.suffix(j).as_str()));
        if first.is_none() {
            assert_eq!(t.lookup(&name), Some(i));
        }
    }
    assert_eq!(t.lookup("example.co.uk"), Some(0));
    assert_eq!(t.lookup("example.com"), Some(1));
    assert_eq!(t.lookup("example.uk"), Some(2));
    assert_eq!(t.lookup("example.org"), Some(4));
}

#[test]
fn table_order_is_precedence() {
    let mut t = SuffixTable::new();
    assert!(t.insert(".uk", None));
    assert!(t.insert(".co.uk", Some("whois.nic.uk".to_string())));
    assert_eq!(t.lookup("example.co.uk"), Some(0));
}

#[test]
fn lookup_ignores_letter_case() {
    let t = table();
    assert_eq!(t.lookup("EXAMPLE.COM"), Some(1));
    assert_eq!(t.lookup("Example.Co.Uk"), Some(0));
    assert_eq!(t.lookup("example.zz"), None);
    assert_eq!(t.lookup(""), None);
    assert_eq!(SuffixTable::new().lookup("example.com"), None);
}

#[test]
fn insert_keeps_suffixes_unique_and_lower_case() {
    let mut t = SuffixTable::new();
    assert_eq!(t.len(), 0);
    assert!(t.insert(".COM", None));
    assert!(!t.insert(".com", Some("whois.example".to_string())));
    assert_eq!(t.len(), 1);
    assert_eq!(t.suffix(0), ".com");
    assert_eq!(t.server(0), &None);
    assert!(t.has(".com"));
    assert!(!t.has("com"));
    assert!(!t.has(".COM"));
}

#[test]
fn normalization_keeps_ascii_names() {
    assert_eq!(normalize_name("example.com"), Some("example.com".to_string()));
    assert_eq!(normalize_name("example.xn--fiqs8s"), Some("example.xn--fiqs8s".to_string()));
    assert_eq!(normalize_name("localhost"), Some("localhost".to_string()));
}

#[test]
fn normalization_encodes_the_rightmost_label() {
    assert_eq!(normalize_name("example.中国"), Some("example.xn--fiqs8s".to_string()));
    assert_eq!(normalize_name("中国.中国"), Some("中国.xn--fiqs8s".to_string()));
    assert_eq!(normalize_name("中国"), Some("xn--fiqs8s".to_string()));
}

#[test]
fn normalization_fails_on_empty_or_oversized_label() {
    assert_eq!(normalize_name("example."), None);
    assert_eq!(normalize_name(""), None);
    let long: String = std::iter::repeat('中').take(64).collect();
    assert_eq!(normalize_name(&format!("example.{long}")), None);
    let fits: String = std::iter::repeat('中').take(63).collect();
    assert!(normalize_name(&format!("example.{fits}")).is_some());
}

#[test]
fn punycode_round_trip() {
    let decoded = punycode::decode("fiqs8s").unwrap();
    assert_eq!(decoded, "中国");
    assert_eq!(punycode::encode(&decoded).unwrap(), "fiqs8s");
    let decoded = punycode::decode("acadmie-franaise-npb1a").unwrap();
    assert_eq!(punycode::encode(&decoded).unwrap(), "acadmie-franaise-npb1a");
}

#[test]
fn internationalized_name_routes_by_encoded_suffix() {
    let t = table();
    assert_eq!(t.resolve("example.中国"), Some(3));
    assert_eq!(t.lookup("example.中国"), None);
    let request = domain("example.中国", &t).unwrap();
    assert_eq!(request.server, "cwhois.cnnic.cn");
    assert_eq!(request.suffix, ".xn--fiqs8s");
    assert_eq!(request.payload, "example.中国\r\n");
}

#[test]
fn rebuild_name_replaces_last_label() {
    assert_eq!(rebuild_name(&chars("a.b.c"), "zz"), "a.b.xn--zz");
    assert_eq!(rebuild_name(&chars("c"), "zz"), "xn--zz");
    assert_eq!(rebuild_name(&chars("a."), ""), "a.xn--");
}

#[test]
fn query_is_routed() {
    let t = table();
    assert_eq!(
        domain("example.com", &t),
        Ok(Request {
            suffix: ".com".to_string(),
            server: "whois.verisign-grs.com".to_string(),
            port: 43,
            payload: "example.com\r\n".to_string(),
        })
    );
    assert_eq!(WHOIS_PORT, 43);
}

#[test]
fn query_errors() {
    let t = table();
    assert_eq!(domain("example.uk", &t), Err(Error::NoServer));
    assert_eq!(domain("example.zz", &t), Err(Error::UnknownSuffix));
    assert_eq!(domain("example.", &t), Err(Error::UnknownSuffix));
    assert_eq!(
        conclude(Err("connection refused".to_string()), &t, DateMode::Raw),
        Err(Error::Io("connection refused".to_string()))
    );
}

#[test]
fn error_messages() {
    assert_eq!(Error::NoServer.message(), "no whois server available");
    assert_eq!(Error::UnknownSuffix.message(), "unknown domain suffix");
    assert_eq!(Error::Io("x".to_string()).message(), "io error");
}

#[test]
fn conclude_reads_the_answer() {
    let t = table();
    let answer = "Domain Name: EXAMPLE.COM\r\nName Server: NS1.EXAMPLE.COM\r\n".to_string();
    let record = conclude(Ok(answer), &t, DateMode::Raw).unwrap().unwrap();
    assert_eq!(record.name, "example.com");
    assert_eq!(record.name_servers, vec!["ns1.example.com".to_string()]);
    assert_eq!(conclude(Ok("NOT FOUND".to_string()), &t, DateMode::Raw), Ok(None));
}

#[test]
fn frame_appends_line_end() {
    assert_eq!(frame("debian.org"), "debian.org\r\n");
    assert_eq!(frame(""), "\r\n");
}

#[test]
fn replace_all_is_left_to_right() {
    assert_eq!(replace_all(&chars("a\r\nb\r\n"), &chars("\r\n"), &chars("\n")), chars("a\nb\n"));
    assert_eq!(replace_all(&chars("aaa"), &chars("aa"), &chars("b")), chars("ba"));
    assert_eq!(replace_all(&chars("abc"), &chars("x"), &chars("y")), chars("abc"));
    assert_eq!(replace_all(&chars(""), &chars("x"), &chars("y")), chars(""));
    assert_eq!(replace_all(&chars("::\n"), &chars(":\n"), &chars(":")), chars("::"));
    assert_eq!(replace_all(&chars("abc"), &chars(""), &chars("y")), chars("abc"));
    assert_eq!(replace_all(&chars("a--b"), &chars("-"), &chars("")), chars("ab"));
}

#[test]
fn char_helpers() {
    assert_eq!(chars_of("a中b"), vec!['a', '中', 'b']);
    assert_eq!(string_of(&chars("a中bc"), 1, 3), "中b");
    assert_eq!(lower_chars(&chars("AZaz@[")), chars("azaz@["));
    assert!(has_at(&chars("hello"), 1, &chars("ell")));
    assert!(!has_at(&chars("hello"), 3, &chars("lol")));
    assert!(has_at(&chars("hello"), 5, &chars("")));
    assert!(!has_at(&chars("hello"), 6, &chars("")));
    assert!(has_suffix(&chars("hello"), &chars("llo")));
    assert!(!has_suffix(&chars("lo"), &chars("llo")));
    assert!(has_within(&chars("a: connect"), &chars(": connect")));
    assert!(!has_within(&chars("a:connect"), &chars(": connect")));
    assert!(has_within(&chars(""), &chars("")));
    assert!(same(&chars(".de"), &chars(".de")));
    assert!(!same(&chars(".de"), &chars(".dk")));
    assert_eq!(rightmost_label_start(&chars("a.bc.d")), 5);
    assert_eq!(rightmost_label_start(&chars("abc")), 0);
    assert_eq!(rightmost_label_start(&chars("abc.")), 4);
}

#[test]
fn name_with_empty_rightmost_label_is_searched_as_it_stands() {
    let mut t = SuffixTable::new();
    assert!(t.insert(".", Some("whois.root.example".to_string())));
    assert_eq!(t.resolve("a."), Some(0));
    assert_eq!(t.lookup_normalized("a."), None);
    assert_eq!(domain("a.", &t).unwrap().server, "whois.root.example");
    assert_eq!(t.resolve(""), None);
    assert_eq!(domain("", &t), Err(Error::UnknownSuffix));

    let mut all = SuffixTable::new();
    assert!(all.insert("", None));
    assert_eq!(all.resolve(""), Some(0));
    assert_eq!(domain("", &all), Err(Error::NoServer));
    assert_eq!(domain("example.", &all), Err(Error::NoServer));
}

#[test]
fn lookup_normalized_encodes_first() {
    let t = table();
    assert_eq!(t.lookup_normalized("example.中国"), Some(3));
    assert_eq!(t.lookup_normalized("example.com"), Some(1));
    assert_eq!(t.lookup_normalized("example."), None);
}
