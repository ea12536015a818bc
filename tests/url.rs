use oasiscap::url::Url;

fn lenient(s: &str) -> Option<String> {
    Url::parse_lenient(s).unwrap().map(|u| u.as_str().to_string())
}

#[test]
fn test_discard() {
    assert_eq!(lenient("http://"), None);
    assert_eq!(lenient("https://"), None);
}

#[test]
fn test_fixup() {
    let cases = [
        ("www.moalerts.mo.gov", "http://www.moalerts.mo.gov"),
        ("www.missingkids.org", "http://www.missingkids.org"),
        ("www.missingkids.com", "http://www.missingkids.com"),
        ("www.ready.nj.gov", "http://www.ready.nj.gov"),
        ("www.miamidade.gov", "http://www.miamidade.gov"),
        ("newmexico.gov", "http://newmexico.gov"),
        ("www.alachuacounty.us/em", "http://www.alachuacounty.us/em"),
        ("www.fema.org", "http://www.fema.org"),
    ];
    for (input, expected) in cases {
        assert_eq!(
            lenient(input),
            Some(Url::parse(expected).unwrap().as_str().to_string())
        );
    }
}

#[test]
fn url_serialization_is_normalized() {
    assert_eq!(
        Url::parse("http://www.fema.org").unwrap().as_str(),
        "http://www.fema.org/"
    );
}

#[test]
fn unusable_urls_are_errors() {
    assert!(Url::parse_lenient("not a url").is_err());
    assert!(Url::parse_lenient("www.example.xyz").is_err());
    assert!(Url::parse("www.fema.org").is_err());
}
