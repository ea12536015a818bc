use oasiscap::DateTime;

fn ymd_hms(offset_minutes: i16) -> DateTime {
    DateTime::new(2002, 5, 24, 16, 49, 0, offset_minutes).unwrap()
}

#[test]
fn parse() {
    assert_eq!("2002-05-24T16:49:00-07:00".parse(), Ok(ymd_hms(-7 * 60)));

    // Omitting offset is not permitted
    assert!(DateTime::parse("2002-05-24T16:49:00").is_err());
}

#[test]
fn parse_utc() {
    let reference = DateTime::parse("2002-05-24T16:49:00-00:00").unwrap();
    assert_eq!(DateTime::parse("2002-05-24T16:49:00+00:00").unwrap(), reference);
    assert_eq!(DateTime::parse("2002-05-24T16:49:00Z").unwrap(), reference);
}

#[test]
fn to_string() {
    assert_eq!(ymd_hms(-7 * 60).to_string(), "2002-05-24T16:49:00-07:00");
    assert_eq!(ymd_hms(0).to_string(), "2002-05-24T16:49:00-00:00");
}

#[test]
fn fractional_seconds_are_dropped() {
    assert_eq!(
        DateTime::parse("2002-05-24T16:49:00.123-01:00").unwrap(),
        DateTime::parse("2002-05-24T16:49:00-01:00").unwrap(),
    );
    assert_eq!(
        DateTime::parse("2002-05-24T16:49:00.123-01:00").unwrap().to_string(),
        "2002-05-24T16:49:00-01:00"
    );
}

#[test]
fn utc_spellings_all_format_as_minus_zero() {
    for s in [
        "2002-05-24T16:49:00-00:00",
        "2002-05-24T16:49:00+00:00",
        "2002-05-24T16:49:00Z",
    ] {
        assert_eq!(DateTime::parse(s).unwrap().to_string(), "2002-05-24T16:49:00-00:00");
    }
}

#[test]
fn positive_offset_and_fields() {
    let d = DateTime::parse("2003-04-02T14:39:01+05:30").unwrap();
    assert_eq!(d.year, 2003);
    assert_eq!(d.month, 4);
    assert_eq!(d.day, 2);
    assert_eq!(d.hour, 14);
    assert_eq!(d.minute, 39);
    assert_eq!(d.second, 1);
    assert_eq!(d.offset_minutes, 330);
    assert_eq!(d.to_string(), "2003-04-02T14:39:01+05:30");
}

#[test]
fn calendar_dates_are_checked() {
    assert!(DateTime::parse("2003-02-29T00:00:00Z").is_err());
    assert!(DateTime::parse("2004-02-29T00:00:00Z").is_ok());
    assert!(DateTime::parse("1900-02-29T00:00:00Z").is_err());
    assert!(DateTime::parse("2000-02-29T00:00:00Z").is_ok());
    assert!(DateTime::parse("2003-13-01T00:00:00Z").is_err());
    assert!(DateTime::parse("2003-04-31T00:00:00Z").is_err());
    assert!(DateTime::parse("2003-04-30T24:00:00Z").is_err());
    assert!(DateTime::parse("2003-04-30T12:00:00+24:00").is_err());
    assert!(DateTime::parse("2003-04-30T12:00:00.Z").is_err());
    assert!(DateTime::new(2003, 2, 29, 0, 0, 0, 0).is_none());
}
