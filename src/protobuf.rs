//! The permissive binary form of alerts, and its conversions to and from the dialects.
//!
//! Every dialect record converts to the binary form; the other way conversion can fail,
//! since the binary form lets values be missing, malformed or outside a dialect.

pub mod codes;

pub use codes::{Category, Certainty, MsgType, ResponseType, Scope, Severity, Status, Urgency};

pub mod alert_conversion;
pub mod area_conversion;
pub mod info_conversion;
pub mod resource_conversion;

use vstd::prelude::*;
use crate::geo::Decimal;

pub use alert_conversion::AlertConversionError;
pub use area_conversion::AreaConversionError;
pub use info_conversion::InfoConversionError;
pub use resource_conversion::ResourceConversionError;

verus! {

/// A list of strings.
#[derive(Debug, Clone, PartialEq, Eq, Default)]
pub struct Group {
    pub value: Vec<String>,
}

/// A named value.
#[derive(Debug, Clone, PartialEq, Eq, Default)]
pub struct ValuePair {
    pub value_name: String,
    pub value: String,
}

/// A point, not yet checked against WGS 84 bounds.
#[derive(Debug, Copy, Clone, PartialEq, Eq, Structural)]
pub struct Point {
    pub latitude: Decimal,
    pub longitude: Decimal,
}

/// A polygon, not yet checked for closure.
#[derive(Debug, Clone, PartialEq, Eq, Default)]
pub struct Polygon {
    pub point: Vec<Point>,
}

/// A circle, not yet checked.
#[derive(Debug, Copy, Clone, PartialEq, Eq, Structural)]
pub struct Circle {
    pub point: Point,
    pub radius: Decimal,
}

/// An area.
#[derive(Debug, Clone, PartialEq, Eq, Default)]
pub struct Area {
    pub area_desc: String,
    pub polygon: Vec<Polygon>,
    pub circle: Vec<Circle>,
    pub geocode: Vec<ValuePair>,
    pub altitude: Option<Decimal>,
    pub ceiling: Option<Decimal>,
}

/// A resource, with every field as text or a plain number.
#[derive(Debug, Clone, PartialEq, Eq, Default)]
pub struct Resource {
    pub resource_desc: String,
    pub mime_type: Option<String>,
    pub size: Option<i64>,
    pub uri: Option<String>,
    pub deref_uri: Option<String>,
    pub digest: Option<String>,
}

/// An information block, with enumerated values as integer codes.
#[derive(Debug, Clone, PartialEq, Eq, Default)]
pub struct Info {
    pub language: Option<String>,
    pub category: Vec<i32>,
    pub event: String,
    pub response_type: Vec<i32>,
    pub urgency: i32,
    pub severity: i32,
    pub certainty: i32,
    pub audience: Option<String>,
    pub event_code: Vec<ValuePair>,
    pub effective: Option<String>,
    pub onset: Option<String>,
    pub expires: Option<String>,
    pub sender_name: Option<String>,
    pub headline: Option<String>,
    pub description: Option<String>,
    pub instruction: Option<String>,
    pub web: Option<String>,
    pub contact: Option<String>,
    pub parameter: Vec<ValuePair>,
    pub resource: Vec<Resource>,
    pub area: Vec<Area>,
}

/// An alert, with its dialect named by `xmlns`.
#[derive(Debug, Clone, PartialEq, Eq, Default)]
pub struct Alert {
    pub xmlns: String,
    pub identifier: String,
    pub sender: String,
    pub password: Option<String>,
    pub sent: String,
    pub status: i32,
    pub msg_type: i32,
    pub source: Option<String>,
    pub scope: Option<i32>,
    pub restriction: Option<String>,
    pub addresses: Option<Group>,
    pub code: Vec<String>,
    pub note: Option<String>,
    pub references: Option<Group>,
    pub incidents: Option<Group>,
    pub info: Vec<Info>,
}

} // verus!

verus! {

/// Whether an optional timestamp text is absent or valid.
pub open spec fn datetime_ok(s: Option<String>) -> bool {
    match s {
        Some(t) => crate::datetime::datetime_of(t@) is Some,
        None => true,
    }
}

pub open spec fn datetime_decoded(s: Option<String>, r: Option<crate::datetime::DateTime>) -> bool {
    match s {
        Some(t) => r == crate::datetime::datetime_of(t@),
        None => r is None,
    }
}

/// Parse an optional timestamp.
pub fn datetime(optional: Option<String>) -> (r: Result<
    Option<crate::datetime::DateTime>,
    crate::datetime::DateTimeParseError,
>)
    ensures
        datetime_ok(optional) <==> r is Ok,
        r matches Ok(d) ==> datetime_decoded(optional, d),
{
    match optional {
        Some(s) => match crate::datetime::DateTime::parse(s.as_str()) {
            Ok(d) => Ok(Some(d)),
            Err(e) => Err(e),
        },
        None => Ok(None),
    }
}

/// The text of an optional timestamp.
pub fn datetime_string(d: Option<crate::datetime::DateTime>) -> (r: Option<String>)
    requires
        d matches Some(x) ==> x.wf(),
    ensures
        match d {
            Some(x) => r matches Some(t) && t@ == crate::datetime::datetime_text(x),
            None => r is None,
        },
{
    match d {
        Some(x) => Some(x.to_string()),
        None => None,
    }
}

} // verus!
