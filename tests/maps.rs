use oasiscap::map::KeyValueMap;
use oasiscap::references::{ReferenceError, References};
use oasiscap::v1dot0::map::{InvalidEntryError, Key};
use oasiscap::v1dot0;
use oasiscap::id::InvalidIdError;

#[test]
fn multimap_lookup() {
    let mut m = KeyValueMap::new();
    assert!(m.is_empty());
    m.push("fips6".into(), "006109".into());
    m.push("ugc".into(), "CAZ001".into());
    m.push("fips6".into(), "006103".into());
    assert_eq!(m.len(), 3);
    assert_eq!(m.get("fips6"), Some("006109"));
    assert_eq!(m.get("nope"), None);
    assert_eq!(m.get_all("fips6"), vec!["006109", "006103"]);
    assert!(m.get_all("nope").is_empty());
}

#[test]
fn v1dot0_map_entries() {
    let (k, v) = v1dot0::KeyValueMap::parse_entry("fips6=006109=x").unwrap();
    assert_eq!(k.as_str(), "fips6");
    assert_eq!(v, "006109=x");
    assert_eq!(v1dot0::KeyValueMap::parse_entry("novalue"), Err(InvalidEntryError::MissingEquals));
    assert!(matches!(v1dot0::KeyValueMap::parse_entry("bad key=1"), Err(InvalidEntryError::Key(_))));
    let mut m = v1dot0::KeyValueMap::new();
    m.push(k, v);
    m.push(Key::new("ugc".into()).unwrap(), "CAZ001".into());
    assert_eq!(m.entry_strings(), vec!["fips6=006109=x".to_string(), "ugc=CAZ001".to_string()]);
    assert_eq!(m.get("ugc"), Some("CAZ001"));
    assert_eq!(m.get_all("fips6"), vec!["006109=x"]);
    for bad in ["a b", "a<b", "a>b", "a&b", "a,b", "a=b"] {
        assert!(Key::new(bad.into()).is_err());
    }
}

#[test]
fn references_round_trip() {
    let s = "hsas@dhs.gov,43b080713727,2003-04-02T14:39:01-05:00 other,id2,2003-04-02T14:39:01Z";
    let r = References::parse(s).unwrap();
    assert_eq!(r.as_slice().len(), 2);
    assert_eq!(r.as_slice()[0].sender.as_str(), "hsas@dhs.gov");
    assert_eq!(r.as_slice()[1].identifier.as_str(), "id2");
    assert_eq!(
        r.to_string(),
        "hsas@dhs.gov,43b080713727,2003-04-02T14:39:01-05:00 other,id2,2003-04-02T14:39:01-00:00"
    );
    assert_eq!(References::parse("a,b"), Err(ReferenceError::Format));
    assert_eq!(
        References::parse("a,,2003-04-02T14:39:01Z"),
        Err(ReferenceError::Identifier(InvalidIdError::Empty))
    );
    assert!(matches!(References::parse("a,b,yesterday"), Err(ReferenceError::Sent(_))));
    assert!(References::parse("").unwrap().as_slice().is_empty());
}
