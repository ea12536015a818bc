use oasiscap::delimited_items::{InvalidItemError, Item, Items, UnclosedQuotesError};
use oasiscap::digest::{Sha1, Sha1ParseError};
use oasiscap::geo::{polygons_from_texts, Circle, Decimal, InvalidCircleError, InvalidPointError, InvalidPolygonError, Point, Polygon};
use oasiscap::id::{Id, InvalidIdError};
use oasiscap::language::Language;
use oasiscap::EmbeddedContent;

fn items(s: &str) -> Vec<String> {
    Items::parse(s)
        .unwrap()
        .into_inner()
        .into_iter()
        .map(|i| i.into_inner())
        .collect()
}

#[test]
fn items_parse() {
    assert!(Items::parse("").unwrap().is_empty());
    assert_eq!(items("foo"), vec!["foo"]);
    assert_eq!(items("foo bar"), vec!["foo", "bar"]);
    assert_eq!(items("foo \"bar baz\""), vec!["foo", "bar baz"]);
    assert_eq!(Items::parse("foo \"bar baz"), Err(UnclosedQuotesError));
    assert_eq!(items("  foo     bar  "), vec!["foo", "bar"]);
    assert_eq!(items("  foo   \"  bar \" "), vec!["foo", "  bar "]);
    assert_eq!(items("  foo\n\tbar "), vec!["foo", "bar"]);
    assert_eq!(Items::parse("foo \"bar\" baz \"quxx"), Err(UnclosedQuotesError));
}

#[test]
fn items_format() {
    assert_eq!(Items::empty().to_string(), "");
    assert_eq!(Items::from_strings(vec!["foo".into(), "bar".into()]).unwrap().to_string(), "foo bar");
    assert_eq!(
        Items::from_strings(vec!["foo".into(), "bar baz".into()]).unwrap().to_string(),
        "foo \"bar baz\""
    );
    assert_eq!(Items::from_strings(vec![" foo ".into()]).unwrap().to_string(), "\" foo \"");
    let it = Items::new(vec![Item::new("foo".into()).unwrap(), Item::new("bar".into()).unwrap()]);
    assert_eq!(it.to_string(), "foo bar");
}

#[test]
fn items_reject_quotes() {
    assert_eq!(Item::new("double\"quote".into()), Err(InvalidItemError));
    assert_eq!(Items::from_strings(vec!["double\"quote".into()]), Err(InvalidItemError));
    assert_eq!(Item::new("foo bar".into()).unwrap().as_str(), "foo bar");
}

#[test]
fn ids() {
    assert_eq!(Id::parse(" parsing-trims-whitespace ").unwrap().as_str(), "parsing-trims-whitespace");
    assert_eq!(Id::new(" new-does-not ".into()), Err(InvalidIdError::ContainsWhitespace));
    assert_eq!(Id::new("internal whitespace".into()), Err(InvalidIdError::ContainsWhitespace));
    assert_eq!(Id::new("prohibited<characters".into()), Err(InvalidIdError::ContainsProhibitedCharacter));
    assert_eq!(Id::new("a,b".into()), Err(InvalidIdError::ContainsProhibitedCharacter));
    assert_eq!(Id::new("a&b".into()), Err(InvalidIdError::ContainsProhibitedCharacter));
    assert_eq!(Id::new(String::new()), Err(InvalidIdError::Empty));
    assert_eq!(Id::parse("   "), Err(InvalidIdError::Empty));
    assert_eq!(Id::new("foo".into()).unwrap().as_str(), "foo");
}

#[test]
fn languages() {
    let default = Language::unspecified();
    assert_eq!(default.as_str(), "en-US");
    assert_eq!(default.as_option_str(), None);
    assert!(default.is_empty());
    let en_us = Language::new(Some("en-US".into())).unwrap();
    assert_eq!(en_us.as_str(), "en-US");
    assert_eq!(en_us.as_option_str(), Some("en-US"));
    assert!(en_us == Language::unspecified());
    assert_eq!(en_us.into_inner(), Some("en-US".to_string()));
    assert!(Language::new(Some("-".into())).is_err());
    assert!(Language::new(Some("12-34".into())).is_err());
    assert!(Language::new(Some("en-GB".into())).is_ok());
    assert!(Language::new(None).is_ok());
    assert_eq!(Language::new(Some(String::new())).unwrap().into_inner(), None);
    assert!(Language::new(Some("not a language".into())).is_err());
    assert!(Language::new(Some("r2-D2".into())).is_err());
    assert!(Language::new(Some("artoo-D2".into())).is_ok());
    assert!(Language::new(Some("abcdefghi".into())).is_err());
    assert!(Language::new(Some("en--US".into())).is_err());
    assert!(Language::new(Some("en-".into())).is_err());
    assert!(!(Language::new(Some("fr".into())).unwrap() == Language::unspecified()));
}

#[test]
fn sha1_digests() {
    let d = Sha1::parse(" 2fd4e1c67a2d28fced849ee1bb76e7391b93eb12 ").unwrap();
    assert_eq!(d.as_bytes()[0], 0x2f);
    assert_eq!(d.as_bytes()[19], 0x12);
    assert_eq!(d.to_string(), "2fd4e1c67a2d28fced849ee1bb76e7391b93eb12");
    let upper = Sha1::parse("2FD4E1C67A2D28FCED849EE1BB76E7391B93EB12").unwrap();
    assert_eq!(upper, d);
    assert_eq!(Sha1::parse("abc"), Err(Sha1ParseError::Length(3)));
    assert_eq!(
        Sha1::parse("zfd4e1c67a2d28fced849ee1bb76e7391b93eb12"),
        Err(Sha1ParseError::Digits)
    );
    assert_eq!(Sha1::from_bytes([0u8; 20]).to_string(), "0".repeat(40));
}

#[test]
fn embedded_content() {
    let c = EmbeddedContent::parse("aGVs\n bG8=").unwrap();
    assert_eq!(c.as_slice(), b"hello");
    assert_eq!(c.to_string(), "aGVsbG8=");
    assert_eq!(EmbeddedContent::from_bytes(b"hi".to_vec()).to_string(), "aGk=");
    assert!(EmbeddedContent::parse("not base64!").is_err());
}

#[test]
fn decimals() {
    assert_eq!(Decimal::parse("1").unwrap().units, 10_000_000);
    assert_eq!(Decimal::parse("-134.9").unwrap().units, -1_349_000_000);
    assert_eq!(Decimal::parse("+.5").unwrap().units, 5_000_000);
    assert_eq!(Decimal::parse("0.123456789").unwrap().units, 1_234_567);
    assert!(Decimal::parse("").is_err());
    assert!(Decimal::parse(".").is_err());
    assert!(Decimal::parse("1e5").is_err());
    assert!(Decimal::parse("12345678901").is_err());
    assert_eq!(Decimal::from_units(-1_349_000_000).to_string(), "-134.9");
    assert_eq!(Decimal::from_units(10_000_000).to_string(), "1");
    assert_eq!(Decimal::from_units(1).to_string(), "0.0000001");
    assert_eq!(Decimal::whole(-7).to_string(), "-7");
}

#[test]
fn points() {
    let p = Point::parse("55.3, -134.9").unwrap();
    assert_eq!(p.latitude().units, 553_000_000);
    assert_eq!(p.longitude().units, -1_349_000_000);
    assert_eq!(p.to_string(), "55.3,-134.9");
    assert_eq!(Point::parse("1,2,3"), Err(InvalidPointError::BadFormat));
    assert_eq!(Point::parse("1"), Err(InvalidPointError::BadFormat));
    assert_eq!(Point::parse("91,0"), Err(InvalidPointError::CoordinatesOutOfRange));
    assert_eq!(Point::parse("0,-180.0000001"), Err(InvalidPointError::CoordinatesOutOfRange));
    assert!(Point::parse("-90,180").is_ok());
}

#[test]
fn polygons() {
    let p = Polygon::parse("1,1 2,2 3,3 1,1").unwrap();
    assert_eq!(p.len(), 4);
    assert_eq!(p.to_string(), "1,1 2,2 3,3 1,1");
    assert_eq!(Polygon::parse("1,1 2,2 3,3 4,4"), Err(InvalidPolygonError::ShapeNotClosed));
    assert_eq!(Polygon::parse("1,1 2,2 1,1"), Err(InvalidPolygonError::TooFewPoints(3)));
    assert_eq!(
        Polygon::parse("100,100 200,200 300,300 100,100"),
        Err(InvalidPolygonError::InvalidPoint(InvalidPointError::CoordinatesOutOfRange))
    );
    assert_eq!(Polygon::parse(""), Err(InvalidPolygonError::TooFewPoints(0)));
}

#[test]
fn circles() {
    let c = Circle::parse("55.3,-134.9 0.0").unwrap();
    assert_eq!(c.radius.units, 0);
    assert_eq!(c.to_string(), "55.3,-134.9 0");
    assert_eq!(Circle::parse("1,1"), Err(InvalidCircleError::UnparseableString));
    assert_eq!(Circle::parse("1,1 x"), Err(InvalidCircleError::UnparseableString));
    assert_eq!(Circle::parse("1,1 20000"), Err(InvalidCircleError::RadiusTooLarge));
    assert_eq!(Circle::parse("1,1 -1"), Err(InvalidCircleError::RadiusTooLarge));
    assert_eq!(
        Circle::parse("100,1 5"),
        Err(InvalidCircleError::InvalidCenterPoint(InvalidPointError::CoordinatesOutOfRange))
    );
    assert!(Circle::parse("1,1 19999.9999999").is_ok());
}

#[test]
fn items_text_round_trip() {
    let list = Items::from_strings(vec!["foo".into(), "bar baz".into(), "  q ".into(), "x".into()]).unwrap();
    let text = list.to_string();
    assert_eq!(text, "foo \"bar baz\" \"  q \" x");
    assert_eq!(Items::parse(&text).unwrap(), list);
}

#[test]
fn text_before_a_quote_is_kept() {
    assert_eq!(items("ab\"c d\" e"), vec!["ab", "c d", "e"]);
    assert_eq!(items("\"c d\"e"), vec!["c d", "e"]);
}

#[test]
fn items_with_other_whitespace_are_quoted() {
    for item in ["a\tb", "a\nb", "\u{a0}x", "x\u{a0}", ""] {
        let list = Items::from_strings(vec![item.into(), "y".into()]).unwrap();
        let text = list.to_string();
        assert!(text.starts_with('"'), "{:?}", text);
        assert_eq!(Items::parse(&text).unwrap(), list);
        assert_eq!(Items::parse(&text).unwrap().to_string(), text);
    }
    assert_eq!(
        Items::from_strings(vec!["a\tb".into()]).unwrap().to_string(),
        "\"a\tb\""
    );
    assert_eq!(Items::from_strings(vec!["x\u{a0}y".into()]).unwrap().to_string(), "x\u{a0}y");
}

#[test]
fn polygon_texts_skip_empty_elements() {
    let ps = polygons_from_texts(vec!["".into(), "1,1 2,2 3,3 1,1".into()]).unwrap();
    assert_eq!(ps.len(), 1);
    assert_eq!(
        polygons_from_texts(vec!["1,1 2,2 3,3 4,4".into()]),
        Err(InvalidPolygonError::ShapeNotClosed)
    );
}

#[test]
fn embedded_content_round_trip() {
    let c = EmbeddedContent::from_bytes(vec![0, 1, 2, 250, 251, 252, 253, 254, 255]);
    assert_eq!(EmbeddedContent::parse(&c.to_string()).unwrap(), c);
}
