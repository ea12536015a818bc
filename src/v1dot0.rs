//! The records of CAP v1.0, the oldest dialect.

pub mod map;

use vstd::prelude::*;
use crate::datetime::DateTime;
use crate::delimited_items::Items;
use crate::digest::Sha1;
use crate::geo::{Circle, Decimal, Polygon};
use crate::language::Language;
use crate::references::References;
use crate::url::Url;
pub use crate::id::{Id, InvalidIdError};
pub use map::{Key, KeyValueMap};

verus! {

/// The namespace that identifies CAP v1.0 documents.
pub const XML_NAMESPACE: &'static str = "http://www.incident.com/cap/1.0";

/// The handling code of an alert.
#[derive(Debug, Copy, Clone, PartialEq, Eq, Structural)]
pub enum Status {
    Actual,
    Exercise,
    System,
    Test,
}

/// The nature of an alert.
#[derive(Debug, Copy, Clone, PartialEq, Eq, Structural)]
pub enum MessageType {
    Alert,
    Update,
    Cancel,
    Ack,
    Error,
}

/// The intended distribution of an alert.
#[derive(Debug, Copy, Clone, PartialEq, Eq, Structural)]
pub enum Scope {
    Public,
    Restricted,
    Private,
}

/// The category of the subject event.
#[derive(Debug, Copy, Clone, PartialEq, Eq, Structural)]
pub enum Category {
    Geo,
    Met,
    Safety,
    Security,
    Rescue,
    Fire,
    Health,
    Env,
    Transport,
    Infra,
    Other,
}

/// The urgency of the subject event.
#[derive(Debug, Copy, Clone, PartialEq, Eq, Structural)]
pub enum Urgency {
    Immediate,
    Expected,
    Future,
    Past,
    Unknown,
}

/// The severity of the subject event.
#[derive(Debug, Copy, Clone, PartialEq, Eq, Structural)]
pub enum Severity {
    Extreme,
    Severe,
    Moderate,
    Minor,
    Unknown,
}

/// The certainty of the subject event; "Very Likely" exists in this dialect only.
#[derive(Debug, Copy, Clone, PartialEq, Eq, Structural)]
pub enum Certainty {
    VeryLikely,
    Likely,
    Possible,
    Unlikely,
    Unknown,
}

pub open spec fn severity_name(s: Severity) -> Seq<char> {
    match s {
        Severity::Extreme => "Extreme"@,
        Severity::Severe => "Severe"@,
        Severity::Moderate => "Moderate"@,
        Severity::Minor => "Minor"@,
        Severity::Unknown => "Unknown"@,
    }
}

pub open spec fn certainty_name(c: Certainty) -> Seq<char> {
    match c {
        Certainty::VeryLikely => "Very Likely"@,
        Certainty::Likely => "Likely"@,
        Certainty::Possible => "Possible"@,
        Certainty::Unlikely => "Unlikely"@,
        Certainty::Unknown => "Unknown"@,
    }
}

pub open spec fn severity_description(s: Severity) -> Seq<char> {
    match s {
        Severity::Extreme => "Extraordinary threat to life or property"@,
        Severity::Severe => "Significant threat to life or property"@,
        Severity::Moderate => "Possible threat to life or property"@,
        Severity::Minor => "Minimal to no known threat to life or property"@,
        Severity::Unknown => "Severity unknown"@,
    }
}

pub open spec fn certainty_description(c: Certainty) -> Seq<char> {
    match c {
        Certainty::VeryLikely => "Highly likely (p > ~ 85%) or certain"@,
        Certainty::Likely => "Likely (p > ~50%)"@,
        Certainty::Possible => "Possible but not likely (p <= ~50%)"@,
        Certainty::Unlikely => "Not expected to occur (p ~ 0)"@,
        Certainty::Unknown => "Certainty unknown"@,
    }
}

impl Severity {
    /// The value's name in CAP text.
    pub fn name(&self) -> (r: &'static str)
        ensures
            r@ == severity_name(*self),
    {
        match self {
            Severity::Extreme => "Extreme",
            Severity::Severe => "Severe",
            Severity::Moderate => "Moderate",
            Severity::Minor => "Minor",
            Severity::Unknown => "Unknown",
        }
    }

    /// What the value means.
    pub fn description(&self) -> (r: &'static str)
        ensures
            r@ == severity_description(*self),
    {
        match self {
            Severity::Extreme => "Extraordinary threat to life or property",
            Severity::Severe => "Significant threat to life or property",
            Severity::Moderate => "Possible threat to life or property",
            Severity::Minor => "Minimal to no known threat to life or property",
            Severity::Unknown => "Severity unknown",
        }
    }
}

impl Certainty {
    /// The value's name in CAP text.
    pub fn name(&self) -> (r: &'static str)
        ensures
            r@ == certainty_name(*self),
    {
        match self {
            Certainty::VeryLikely => "Very Likely",
            Certainty::Likely => "Likely",
            Certainty::Possible => "Possible",
            Certainty::Unlikely => "Unlikely",
            Certainty::Unknown => "Unknown",
        }
    }

    /// What the value means.
    pub fn description(&self) -> (r: &'static str)
        ensures
            r@ == certainty_description(*self),
    {
        match self {
            Certainty::VeryLikely => "Highly likely (p > ~ 85%) or certain",
            Certainty::Likely => "Likely (p > ~50%)",
            Certainty::Possible => "Possible but not likely (p <= ~50%)",
            Certainty::Unlikely => "Not expected to occur (p ~ 0)",
            Certainty::Unknown => "Certainty unknown",
        }
    }
}

/// The altitude of an area, alone or with a ceiling, in feet.
#[derive(Debug, Copy, Clone, PartialEq, Eq, Structural)]
pub enum Altitude {
    Unspecified,
    Specific(Decimal),
    Range(Decimal, Decimal),
}

/// The error returned when a ceiling is given without an altitude.
#[derive(Debug, Copy, Clone, PartialEq, Eq, Structural)]
pub struct CeilingWithoutAltitudeError;

impl Altitude {
    /// Combine an optional altitude and ceiling; a ceiling needs an altitude.
    pub fn from_parts(altitude: Option<Decimal>, ceiling: Option<Decimal>) -> (r: Result<
        Altitude,
        CeilingWithoutAltitudeError,
    >)
        ensures
            match (altitude, ceiling) {
                (None, None) => r == Ok::<Altitude, CeilingWithoutAltitudeError>(
                    Altitude::Unspecified,
                ),
                (Some(a), None) => r == Ok::<Altitude, CeilingWithoutAltitudeError>(
                    Altitude::Specific(a),
                ),
                (Some(a), Some(c)) => r == Ok::<Altitude, CeilingWithoutAltitudeError>(
                    Altitude::Range(a, c),
                ),
                (None, Some(_)) => r is Err,
            },
    {
        match (altitude, ceiling) {
            (None, None) => Ok(Altitude::Unspecified),
            (Some(a), None) => Ok(Altitude::Specific(a)),
            (Some(a), Some(c)) => Ok(Altitude::Range(a, c)),
            (None, Some(_)) => Err(CeilingWithoutAltitudeError),
        }
    }

    /// The optional altitude and ceiling.
    pub fn into_parts(self) -> (r: (Option<Decimal>, Option<Decimal>))
        ensures
            match self {
                Altitude::Unspecified => r == (None::<Decimal>, None::<Decimal>),
                Altitude::Specific(a) => r == (Some(a), None::<Decimal>),
                Altitude::Range(a, c) => r == (Some(a), Some(c)),
            },
    {
        match self {
            Altitude::Unspecified => (None, None),
            Altitude::Specific(a) => (Some(a), None),
            Altitude::Range(a, c) => (Some(a), Some(c)),
        }
    }
}

/// A CAP v1.0 alert.
#[derive(Debug, Clone, PartialEq)]
pub struct Alert {
    pub identifier: Id,
    pub sender: Id,
    pub password: Option<String>,
    pub source: Option<String>,
    pub sent: DateTime,
    pub status: Status,
    pub scope: Scope,
    pub restriction: Option<String>,
    pub addresses: Option<Items>,
    pub codes: Vec<String>,
    pub message_type: MessageType,
    pub note: Option<String>,
    pub references: Option<References>,
    pub incidents: Option<Items>,
    pub info: Vec<Info>,
}

/// The information block of a CAP v1.0 alert.
#[derive(Debug, Clone, PartialEq)]
pub struct Info {
    pub language: Language,
    pub categories: Vec<Category>,
    pub event: String,
    pub urgency: Urgency,
    pub severity: Severity,
    pub certainty: Certainty,
    pub audience: Option<String>,
    pub event_codes: KeyValueMap,
    pub effective: Option<DateTime>,
    pub onset: Option<DateTime>,
    pub expires: Option<DateTime>,
    pub sender_name: Option<String>,
    pub headline: Option<String>,
    pub description: Option<String>,
    pub instruction: Option<String>,
    pub web: Option<Url>,
    pub contact: Option<String>,
    pub parameters: KeyValueMap,
    pub resources: Vec<Resource>,
    pub areas: Vec<Area>,
}

/// A resource of a CAP v1.0 alert; this dialect has no embedded content.
#[derive(Debug, Clone, PartialEq, Eq)]
pub struct Resource {
    pub description: String,
    pub mime_type: Option<String>,
    pub size: Option<u64>,
    pub uri: Option<Url>,
    pub digest: Option<Sha1>,
}

/// An area of a CAP v1.0 alert.
#[derive(Debug, Clone, PartialEq)]
pub struct Area {
    pub description: String,
    pub polygons: Vec<Polygon>,
    pub circles: Vec<Circle>,
    pub geocode: KeyValueMap,
    pub altitude: Option<Decimal>,
    pub ceiling: Option<Decimal>,
}

} // verus!
