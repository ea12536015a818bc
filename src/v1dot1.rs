//! The records of CAP v1.1, and their upgrade from CAP v1.0.

use vstd::prelude::*;
use crate::datetime::DateTime;
use crate::delimited_items::Items;
use crate::digest::Sha1;
use crate::embedded_data::EmbeddedContent;
use crate::geo::{Circle, Decimal, Polygon};
use crate::language::Language;
use crate::references::References;
use crate::url::Url;
use crate::vecs::reversed;
use crate::v1dot0;
pub use crate::id::{Id, InvalidIdError};
pub use crate::map::{Entry, KeyValueMap};
pub use crate::v1dot0::{MessageType, Scope, Severity, Urgency};

verus! {

/// The namespace that identifies CAP v1.1 documents.
pub const XML_NAMESPACE: &'static str = "urn:oasis:names:tc:emergency:cap:1.1";

/// The handling code of an alert; `Draft` is new in this dialect.
#[derive(Debug, Copy, Clone, PartialEq, Eq, Structural)]
pub enum Status {
    Actual,
    Exercise,
    System,
    Test,
    Draft,
}

/// The category of the subject event; `CBRNE` is new in this dialect.
#[derive(Debug, Copy, Clone, PartialEq, Eq, Structural)]
pub enum Category {
    Geo,
    Met,
    Safety,
    Security,
    Rescue,
    Fire,
    Health,
    Env,
    Transport,
    Infra,
    CBRNE,
    Other,
}

/// The certainty of the subject event; `Observed` replaces v1.0's "Very Likely".
#[derive(Debug, Copy, Clone, PartialEq, Eq, Structural)]
pub enum Certainty {
    Observed,
    Likely,
    Possible,
    Unlikely,
    Unknown,
}

/// The action recommended to the audience.
#[derive(Debug, Copy, Clone, PartialEq, Eq, Structural)]
pub enum ResponseType {
    Shelter,
    Evacuate,
    Prepare,
    Execute,
    Monitor,
    Assess,
    /// No action recommended (`None` in CAP text).
    NoAction,
}

pub open spec fn certainty_name(c: Certainty) -> Seq<char> {
    match c {
        Certainty::Observed => "Observed"@,
        Certainty::Likely => "Likely"@,
        Certainty::Possible => "Possible"@,
        Certainty::Unlikely => "Unlikely"@,
        Certainty::Unknown => "Unknown"@,
    }
}

pub open spec fn certainty_description(c: Certainty) -> Seq<char> {
    match c {
        Certainty::Observed => "Determined to have occurred or to be ongoing"@,
        Certainty::Likely => "Likely (p > ~50%)"@,
        Certainty::Possible => "Possible but not likely (p <= ~50%)"@,
        Certainty::Unlikely => "Not expected to occur (p ~ 0)"@,
        Certainty::Unknown => "Certainty unknown"@,
    }
}

impl Certainty {
    /// The value's name in CAP text.
    pub fn name(&self) -> (r: &'static str)
        ensures
            r@ == certainty_name(*self),
    {
        match self {
            Certainty::Observed => "Observed",
            Certainty::Likely => "Likely",
            Certainty::Possible => "Possible",
            Certainty::Unlikely => "Unlikely",
            Certainty::Unknown => "Unknown",
        }
    }

    /// What the value means.
    pub fn description(&self) -> (r: &'static str)
        ensures
            r@ == certainty_description(*self),
    {
        match self {
            Certainty::Observed => "Determined to have occurred or to be ongoing",
            Certainty::Likely => "Likely (p > ~50%)",
            Certainty::Possible => "Possible but not likely (p <= ~50%)",
            Certainty::Unlikely => "Not expected to occur (p ~ 0)",
            Certainty::Unknown => "Certainty unknown",
        }
    }
}

pub open spec fn status_from_v1dot0(s: v1dot0::Status) -> Status {
    match s {
        v1dot0::Status::Actual => Status::Actual,
        v1dot0::Status::Exercise => Status::Exercise,
        v1dot0::Status::System => Status::System,
        v1dot0::Status::Test => Status::Test,
    }
}

pub open spec fn category_from_v1dot0(c: v1dot0::Category) -> Category {
    match c {
        v1dot0::Category::Geo => Category::Geo,
        v1dot0::Category::Met => Category::Met,
        v1dot0::Category::Safety => Category::Safety,
        v1dot0::Category::Security => Category::Security,
        v1dot0::Category::Rescue => Category::Rescue,
        v1dot0::Category::Fire => Category::Fire,
        v1dot0::Category::Health => Category::Health,
        v1dot0::Category::Env => Category::Env,
        v1dot0::Category::Transport => Category::Transport,
        v1dot0::Category::Infra => Category::Infra,
        v1dot0::Category::Other => Category::Other,
    }
}

/// "Very Likely" becomes "Likely", its documented successor; the others keep their name.
pub open spec fn certainty_from_v1dot0(c: v1dot0::Certainty) -> Certainty {
    match c {
        v1dot0::Certainty::VeryLikely => Certainty::Likely,
        v1dot0::Certainty::Likely => Certainty::Likely,
        v1dot0::Certainty::Possible => Certainty::Possible,
        v1dot0::Certainty::Unlikely => Certainty::Unlikely,
        v1dot0::Certainty::Unknown => Certainty::Unknown,
    }
}

impl Status {
    /// The CAP v1.1 status of a CAP v1.0 one: the same name.
    pub fn from_v1dot0(s: v1dot0::Status) -> (r: Status)
        ensures
            r == status_from_v1dot0(s),
    {
        match s {
            v1dot0::Status::Actual => Status::Actual,
            v1dot0::Status::Exercise => Status::Exercise,
            v1dot0::Status::System => Status::System,
            v1dot0::Status::Test => Status::Test,
        }
    }
}

impl Category {
    /// The CAP v1.1 category of a CAP v1.0 one: the same name.
    pub fn from_v1dot0(c: v1dot0::Category) -> (r: Category)
        ensures
            r == category_from_v1dot0(c),
    {
        match c {
            v1dot0::Category::Geo => Category::Geo,
            v1dot0::Category::Met => Category::Met,
            v1dot0::Category::Safety => Category::Safety,
            v1dot0::Category::Security => Category::Security,
            v1dot0::Category::Rescue => Category::Rescue,
            v1dot0::Category::Fire => Category::Fire,
            v1dot0::Category::Health => Category::Health,
            v1dot0::Category::Env => Category::Env,
            v1dot0::Category::Transport => Category::Transport,
            v1dot0::Category::Infra => Category::Infra,
            v1dot0::Category::Other => Category::Other,
        }
    }
}

impl Certainty {
    /// The CAP v1.1 certainty of a CAP v1.0 one: "Very Likely" becomes "Likely".
    pub fn from_v1dot0(c: v1dot0::Certainty) -> (r: Certainty)
        ensures
            r == certainty_from_v1dot0(c),
    {
        match c {
            v1dot0::Certainty::VeryLikely => Certainty::Likely,
            v1dot0::Certainty::Likely => Certainty::Likely,
            v1dot0::Certainty::Possible => Certainty::Possible,
            v1dot0::Certainty::Unlikely => Certainty::Unlikely,
            v1dot0::Certainty::Unknown => Certainty::Unknown,
        }
    }
}

/// A CAP v1.1 alert.
#[derive(Debug, Clone, PartialEq)]
pub struct Alert {
    pub identifier: Id,
    pub sender: Id,
    pub sent: DateTime,
    pub status: Status,
    pub message_type: MessageType,
    pub source: Option<String>,
    pub scope: Scope,
    pub restriction: Option<String>,
    pub addresses: Option<Items>,
    pub codes: Vec<String>,
    pub note: Option<String>,
    pub references: Option<References>,
    pub incidents: Option<Items>,
    pub info: Vec<Info>,
}

/// The information block of a CAP v1.1 alert.
#[derive(Debug, Clone, PartialEq)]
pub struct Info {
    pub language: Language,
    pub categories: Vec<Category>,
    pub event: String,
    pub response_type: Vec<ResponseType>,
    pub urgency: Urgency,
    pub severity: Severity,
    pub certainty: Certainty,
    pub audience: Option<String>,
    pub event_codes: KeyValueMap,
    pub effective: Option<DateTime>,
    pub onset: Option<DateTime>,
    pub expires: Option<DateTime>,
    pub sender_name: Option<String>,
    pub headline: Option<String>,
    pub description: Option<String>,
    pub instruction: Option<String>,
    pub web: Option<Url>,
    pub contact: Option<String>,
    pub parameters: KeyValueMap,
    pub resources: Vec<Resource>,
    pub areas: Vec<Area>,
}

/// A resource of a CAP v1.1 alert.
#[derive(Debug, Clone, PartialEq)]
pub struct Resource {
    pub description: String,
    pub mime_type: Option<String>,
    pub size: Option<u64>,
    pub uri: Option<Url>,
    pub embedded_content: Option<EmbeddedContent>,
    pub digest: Option<Sha1>,
}

/// An area of a CAP v1.1 alert.
#[derive(Debug, Clone, PartialEq)]
pub struct Area {
    pub description: String,
    pub polygons: Vec<Polygon>,
    pub circles: Vec<Circle>,
    pub geocode: KeyValueMap,
    pub altitude: Option<Decimal>,
    pub ceiling: Option<Decimal>,
}

/// A CAP v1.0 map as a CAP v1.1 map: the same entries in the same order.
pub fn map_from_v1dot0(m: v1dot0::KeyValueMap) -> (r: KeyValueMap)
    ensures
        r@ == m@,
{
    let ghost orig = m@;
    let entries = m.into_entries();
    let n = entries.len();
    let mut rest = reversed(entries);
    let mut out = KeyValueMap::new();
    let mut i: usize = 0;
    while i < n
        invariant
            n == orig.len(),
            i <= n,
            rest@.len() == n - i,
            forall|j: int| 0 <= j < n - i ==> (#[trigger] rest@[j]).0@ == orig[n - 1 - j].0 && rest@[j].1@ == orig[n - 1 - j].1,
            out@ == orig.subrange(0, i as int),
        decreases n - i,
    {
        let (k, v) = rest.pop().unwrap();
        out.push(k.into_inner(), v);
        assert(out@ =~= orig.subrange(0, i + 1));
        i = i + 1;
    }
    assert(orig.subrange(0, n as int) =~= orig);
    out
}

pub open spec fn resource_from_v1dot0(a: v1dot0::Resource, b: Resource) -> bool {
    &&& b.description == a.description
    &&& b.mime_type == a.mime_type
    &&& b.size == a.size
    &&& b.uri == a.uri
    &&& b.embedded_content is None
    &&& b.digest == a.digest
}

pub open spec fn area_from_v1dot0(a: v1dot0::Area, b: Area) -> bool {
    &&& b.description == a.description
    &&& b.polygons == a.polygons
    &&& b.circles == a.circles
    &&& b.geocode@ == a.geocode@
    &&& b.altitude == a.altitude
    &&& b.ceiling == a.ceiling
}

pub open spec fn info_from_v1dot0(a: v1dot0::Info, b: Info) -> bool {
    &&& b.language == a.language
    &&& b.categories@.len() == a.categories@.len()
    &&& forall|i: int| 0 <= i < a.categories@.len() ==> #[trigger] b.categories@[i] == category_from_v1dot0(a.categories@[i])
    &&& b.event == a.event
    &&& b.response_type@.len() == 0
    &&& b.urgency == a.urgency
    &&& b.severity == a.severity
    &&& b.certainty == certainty_from_v1dot0(a.certainty)
    &&& b.audience == a.audience
    &&& b.event_codes@ == a.event_codes@
    &&& b.effective == a.effective
    &&& b.onset == a.onset
    &&& b.expires == a.expires
    &&& b.sender_name == a.sender_name
    &&& b.headline == a.headline
    &&& b.description == a.description
    &&& b.instruction == a.instruction
    &&& b.web == a.web
    &&& b.contact == a.contact
    &&& b.parameters@ == a.parameters@
    &&& b.resources@.len() == a.resources@.len()
    &&& forall|i: int| 0 <= i < a.resources@.len() ==> resource_from_v1dot0(#[trigger] a.resources@[i], b.resources@[i])
    &&& b.areas@.len() == a.areas@.len()
    &&& forall|i: int| 0 <= i < a.areas@.len() ==> area_from_v1dot0(#[trigger] a.areas@[i], b.areas@[i])
}

/// Whether `b` is the CAP v1.1 form of the CAP v1.0 alert `a`: the password is dropped,
/// every other field carries over, and each info block is upgraded.
pub open spec fn alert_from_v1dot0(a: v1dot0::Alert, b: Alert) -> bool {
    &&& b.identifier == a.identifier
    &&& b.sender == a.sender
    &&& b.sent == a.sent
    &&& b.status == status_from_v1dot0(a.status)
    &&& b.message_type == a.message_type
    &&& b.source == a.source
    &&& b.scope == a.scope
    &&& b.restriction == a.restriction
    &&& b.addresses == a.addresses
    &&& b.codes == a.codes
    &&& b.note == a.note
    &&& b.references == a.references
    &&& b.incidents == a.incidents
    &&& b.info@.len() == a.info@.len()
    &&& forall|i: int| 0 <= i < a.info@.len() ==> info_from_v1dot0(#[trigger] a.info@[i], b.info@[i])
}

impl Resource {
    /// Upgrade a CAP v1.0 resource; it has no embedded content.
    pub fn from_v1dot0(prev: v1dot0::Resource) -> (r: Resource)
        ensures
            resource_from_v1dot0(prev, r),
    {
        Resource {
            description: prev.description,
            mime_type: prev.mime_type,
            size: prev.size,
            uri: prev.uri,
            embedded_content: None,
            digest: prev.digest,
        }
    }
}

impl Area {
    /// Upgrade a CAP v1.0 area.
    pub fn from_v1dot0(prev: v1dot0::Area) -> (r: Area)
        ensures
            area_from_v1dot0(prev, r),
    {
        Area {
            description: prev.description,
            polygons: prev.polygons,
            circles: prev.circles,
            geocode: map_from_v1dot0(prev.geocode),
            altitude: prev.altitude,
            ceiling: prev.ceiling,
        }
    }
}

fn categories_from_v1dot0(v: Vec<v1dot0::Category>) -> (r: Vec<Category>)
    ensures
        r@.len() == v@.len(),
        forall|i: int| 0 <= i < v@.len() ==> #[trigger] r@[i] == category_from_v1dot0(v@[i]),
{
    let mut out: Vec<Category> = Vec::new();
    let mut i: usize = 0;
    while i < v.len()
        invariant
            i <= v@.len(),
            out@.len() == i,
            forall|j: int| 0 <= j < i ==> #[trigger] out@[j] == category_from_v1dot0(v@[j]),
        decreases v.len() - i,
    {
        out.push(Category::from_v1dot0(v[i]));
        i = i + 1;
    }
    out
}

fn resources_from_v1dot0(v: Vec<v1dot0::Resource>) -> (r: Vec<Resource>)
    ensures
        r@.len() == v@.len(),
        forall|i: int| 0 <= i < v@.len() ==> resource_from_v1dot0(#[trigger] v@[i], r@[i]),
{
    let ghost orig = v@;
    let n = v.len();
    let mut rest = reversed(v);
    let mut out: Vec<Resource> = Vec::new();
    let mut i: usize = 0;
    while i < n
        invariant
            n == orig.len(),
            i <= n,
            rest@.len() == n - i,
            forall|j: int| 0 <= j < n - i ==> #[trigger] rest@[j] == orig[n - 1 - j],
            out@.len() == i,
            forall|j: int| 0 <= j < i ==> resource_from_v1dot0(#[trigger] orig[j], out@[j]),
        decreases n - i,
    {
        let x = rest.pop().unwrap();
        out.push(Resource::from_v1dot0(x));
        i = i + 1;
    }
    out
}

fn areas_from_v1dot0(v: Vec<v1dot0::Area>) -> (r: Vec<Area>)
    ensures
        r@.len() == v@.len(),
        forall|i: int| 0 <= i < v@.len() ==> area_from_v1dot0(#[trigger] v@[i], r@[i]),
{
    let ghost orig = v@;
    let n = v.len();
    let mut rest = reversed(v);
    let mut out: Vec<Area> = Vec::new();
    let mut i: usize = 0;
    while i < n
        invariant
            n == orig.len(),
            i <= n,
            rest@.len() == n - i,
            forall|j: int| 0 <= j < n - i ==> #[trigger] rest@[j] == orig[n - 1 - j],
            out@.len() == i,
            forall|j: int| 0 <= j < i ==> area_from_v1dot0(#[trigger] orig[j], out@[j]),
        decreases n - i,
    {
        let x = rest.pop().unwrap();
        out.push(Area::from_v1dot0(x));
        i = i + 1;
    }
    out
}

impl Info {
    /// Upgrade a CAP v1.0 info block: no response types, and "Very Likely" becomes "Likely".
    pub fn from_v1dot0(prev: v1dot0::Info) -> (r: Info)
        ensures
            info_from_v1dot0(prev, r),
    {
        Info {
            language: prev.language,
            categories: categories_from_v1dot0(prev.categories),
            event: prev.event,
            response_type: Vec::new(),
            urgency: prev.urgency,
            severity: prev.severity,
            certainty: Certainty::from_v1dot0(prev.certainty),
            audience: prev.audience,
            event_codes: map_from_v1dot0(prev.event_codes),
            effective: prev.effective,
            onset: prev.onset,
            expires: prev.expires,
            sender_name: prev.sender_name,
            headline: prev.headline,
            description: prev.description,
            instruction: prev.instruction,
            web: prev.web,
            contact: prev.contact,
            parameters: map_from_v1dot0(prev.parameters),
            resources: resources_from_v1dot0(prev.resources),
            areas: areas_from_v1dot0(prev.areas),
        }
    }
}

fn infos_from_v1dot0(v: Vec<v1dot0::Info>) -> (r: Vec<Info>)
    ensures
        r@.len() == v@.len(),
        forall|i: int| 0 <= i < v@.len() ==> info_from_v1dot0(#[trigger] v@[i], r@[i]),
{
    let ghost orig = v@;
    let n = v.len();
    let mut rest = reversed(v);
    let mut out: Vec<Info> = Vec::new();
    let mut i: usize = 0;
    while i < n
        invariant
            n == orig.len(),
            i <= n,
            rest@.len() == n - i,
            forall|j: int| 0 <= j < n - i ==> #[trigger] rest@[j] == orig[n - 1 - j],
            out@.len() == i,
            forall|j: int| 0 <= j < i ==> info_from_v1dot0(#[trigger] orig[j], out@[j]),
        decreases n - i,
    {
        let x = rest.pop().unwrap();
        out.push(Info::from_v1dot0(x));
        i = i + 1;
    }
    out
}

impl Alert {
    /// Upgrade a CAP v1.0 alert. This never fails.
    pub fn from_v1dot0(prev: v1dot0::Alert) -> (r: Alert)
        ensures
            alert_from_v1dot0(prev, r),
    {
        Alert {
            identifier: prev.identifier,
            sender: prev.sender,
            sent: prev.sent,
            status: Status::from_v1dot0(prev.status),
            message_type: prev.message_type,
            source: prev.source,
            scope: prev.scope,
            restriction: prev.restriction,
            addresses: prev.addresses,
            codes: prev.codes,
            note: prev.note,
            references: prev.references,
            incidents: prev.incidents,
            info: infos_from_v1dot0(prev.info),
        }
    }
}

} // verus!
