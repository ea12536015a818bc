use oasiscap::datetime::DateTime;
use oasiscap::digest::Sha1;
use oasiscap::geo::{Circle, Decimal, Point, Polygon};
use oasiscap::id::Id;
use oasiscap::references::References;
use oasiscap::protobuf;
use oasiscap::v1dot2;

#[test]
fn timestamp_text_round_trip() {
    for s in ["2002-05-24T16:49:00-07:00", "1999-12-31T23:59:59+14:00", "2000-02-29T00:00:00-00:00"] {
        let d = DateTime::parse(s).unwrap();
        assert_eq!(d.to_string(), s);
        assert_eq!(DateTime::parse(&d.to_string()).unwrap(), d);
    }
}

#[test]
fn decimal_text_round_trip() {
    for units in [0i64, 1, -1, 10_000_000, -1_349_000_000, 1_234_567, 99_999_999_999_999_999] {
        let d = Decimal::from_units(units);
        assert_eq!(Decimal::parse(&d.to_string()).unwrap(), d);
    }
}

#[test]
fn shape_text_round_trip() {
    let p = Polygon::parse("38.47,-120.14 38.34,-119.95 38.52,-119.74 38.62,-119.89 38.47,-120.14").unwrap();
    assert_eq!(Polygon::parse(&p.to_string()).unwrap(), p);
    let c = Circle::parse("32.9525,-115.5527 0").unwrap();
    assert_eq!(Circle::parse(&c.to_string()).unwrap(), c);
    let q = Point::parse("-0.5,179.9999999").unwrap();
    assert_eq!(Point::parse(&q.to_string()).unwrap(), q);
}

#[test]
fn identifier_digest_and_reference_round_trip() {
    let id = Id::new("KSTO1055887203".into()).unwrap();
    assert_eq!(Id::parse(id.as_str()).unwrap(), id);
    let d = Sha1::parse("2fd4e1c67a2d28fced849ee1bb76e7391b93eb12").unwrap();
    assert_eq!(Sha1::parse(&d.to_string()).unwrap(), d);
    let r = References::parse("a@b,one,2003-04-02T14:39:01-05:00 c,two,2003-04-02T14:39:01Z").unwrap();
    assert_eq!(References::parse(&r.to_string()).unwrap(), r);
}

#[test]
fn resource_binary_round_trip() {
    let r = v1dot2::Resource {
        description: "Event Data as a JSON document".into(),
        mime_type: "application/json".into(),
        size: Some(1024),
        uri: None,
        embedded_content: None,
        digest: Some(Sha1::parse("2fd4e1c67a2d28fced849ee1bb76e7391b93eb12").unwrap()),
    };
    let b = protobuf::Resource::from_v1dot2(r.clone());
    assert_eq!(b.digest.as_deref(), Some("2fd4e1c67a2d28fced849ee1bb76e7391b93eb12"));
    assert_eq!(v1dot2::Resource::try_from_protobuf(b).unwrap(), r);
}

#[test]
fn enum_codes_round_trip() {
    for c in 0..12 {
        let v = protobuf::Category::from_i32(c).unwrap();
        assert_eq!(v.code(), c);
    }
    assert_eq!(protobuf::Category::from_i32(12), None);
    assert_eq!(protobuf::Certainty::from_i32(0), Some(protobuf::Certainty::Observed));
    assert_eq!(protobuf::ResponseType::NoAction.code(), 8);
    assert_eq!(protobuf::Scope::from_i32(-1), None);
}
