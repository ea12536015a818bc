//! The records of CAP v1.2, the newest dialect, and their upgrade from the older ones.

use vstd::prelude::*;
use crate::datetime::DateTime;
use crate::delimited_items::Items;
use crate::digest::Sha1;
use crate::embedded_data::EmbeddedContent;
use crate::geo::{Circle, Decimal, Polygon};
use crate::language::Language;
use crate::references::References;
use crate::url::Url;
use crate::vecs::reversed;
use crate::{v1dot0, v1dot1};
use crate::v1dot1::{
    alert_from_v1dot0, area_from_v1dot0, category_from_v1dot0, certainty_from_v1dot0,
    info_from_v1dot0, resource_from_v1dot0, status_from_v1dot0,
};
pub use crate::id::{Id, InvalidIdError};
pub use crate::map::{Entry, KeyValueMap};
pub use crate::v1dot0::{MessageType, Scope, Severity, Urgency};
pub use crate::v1dot1::{Category, Certainty, Status};

verus! {

/// The namespace that identifies CAP v1.2 documents.
pub const XML_NAMESPACE: &'static str = "urn:oasis:names:tc:emergency:cap:1.2";

/// The MIME type given to a resource that names none, which this dialect requires.
pub const DEFAULT_MIME_TYPE: &'static str = "application/octet-stream";

/// The action recommended to the audience; `Avoid` and `AllClear` are new in this dialect.
#[derive(Debug, Copy, Clone, PartialEq, Eq, Structural)]
pub enum ResponseType {
    Shelter,
    Evacuate,
    Prepare,
    Execute,
    Avoid,
    Monitor,
    Assess,
    AllClear,
    /// No action recommended (`None` in CAP text).
    NoAction,
}

pub open spec fn response_type_from_v1dot1(t: v1dot1::ResponseType) -> ResponseType {
    match t {
        v1dot1::ResponseType::Shelter => ResponseType::Shelter,
        v1dot1::ResponseType::Evacuate => ResponseType::Evacuate,
        v1dot1::ResponseType::Prepare => ResponseType::Prepare,
        v1dot1::ResponseType::Execute => ResponseType::Execute,
        v1dot1::ResponseType::Monitor => ResponseType::Monitor,
        v1dot1::ResponseType::Assess => ResponseType::Assess,
        v1dot1::ResponseType::NoAction => ResponseType::NoAction,
    }
}

impl ResponseType {
    /// The CAP v1.2 response type of a CAP v1.1 one: the same name.
    pub fn from_v1dot1(t: v1dot1::ResponseType) -> (r: ResponseType)
        ensures
            r == response_type_from_v1dot1(t),
    {
        match t {
            v1dot1::ResponseType::Shelter => ResponseType::Shelter,
            v1dot1::ResponseType::Evacuate => ResponseType::Evacuate,
            v1dot1::ResponseType::Prepare => ResponseType::Prepare,
            v1dot1::ResponseType::Execute => ResponseType::Execute,
            v1dot1::ResponseType::Monitor => ResponseType::Monitor,
            v1dot1::ResponseType::Assess => ResponseType::Assess,
            v1dot1::ResponseType::NoAction => ResponseType::NoAction,
        }
    }
}

/// A CAP v1.2 alert.
#[derive(Debug, Clone, PartialEq)]
pub struct Alert {
    pub identifier: Id,
    pub sender: Id,
    pub sent: DateTime,
    pub status: Status,
    pub message_type: MessageType,
    pub source: Option<String>,
    pub scope: Scope,
    pub restriction: Option<String>,
    pub addresses: Option<Items>,
    pub codes: Vec<String>,
    pub note: Option<String>,
    pub references: Option<References>,
    pub incidents: Option<Items>,
    pub info: Vec<Info>,
}

/// The information block of a CAP v1.2 alert.
#[derive(Debug, Clone, PartialEq)]
pub struct Info {
    pub language: Language,
    pub categories: Vec<Category>,
    pub event: String,
    pub response_type: Vec<ResponseType>,
    pub urgency: Urgency,
    pub severity: Severity,
    pub certainty: Certainty,
    pub audience: Option<String>,
    pub event_codes: KeyValueMap,
    pub effective: Option<DateTime>,
    pub onset: Option<DateTime>,
    pub expires: Option<DateTime>,
    pub sender_name: Option<String>,
    pub headline: Option<String>,
    pub description: Option<String>,
    pub instruction: Option<String>,
    pub web: Option<Url>,
    pub contact: Option<String>,
    pub parameters: KeyValueMap,
    pub resources: Vec<Resource>,
    pub areas: Vec<Area>,
}

/// A resource of a CAP v1.2 alert; the MIME type is required.
#[derive(Debug, Clone, PartialEq)]
pub struct Resource {
    pub description: String,
    pub mime_type: String,
    pub size: Option<u64>,
    pub uri: Option<Url>,
    pub embedded_content: Option<EmbeddedContent>,
    pub digest: Option<Sha1>,
}

/// An area of a CAP v1.2 alert.
#[derive(Debug, Clone, PartialEq)]
pub struct Area {
    pub description: String,
    pub polygons: Vec<Polygon>,
    pub circles: Vec<Circle>,
    pub geocode: KeyValueMap,
    pub altitude: Option<Decimal>,
    pub ceiling: Option<Decimal>,
}

/// The MIME type that an optional one becomes in this dialect.
pub open spec fn mime_or_default(m: Option<String>) -> Seq<char> {
    match m {
        Some(s) => s@,
        None => DEFAULT_MIME_TYPE@,
    }
}

pub open spec fn resource_from_v1dot1(a: v1dot1::Resource, b: Resource) -> bool {
    &&& b.description == a.description
    &&& b.mime_type@ == mime_or_default(a.mime_type)
    &&& b.size == a.size
    &&& b.uri == a.uri
    &&& b.embedded_content == a.embedded_content
    &&& b.digest == a.digest
}

pub open spec fn area_from_v1dot1(a: v1dot1::Area, b: Area) -> bool {
    &&& b.description == a.description
    &&& b.polygons == a.polygons
    &&& b.circles == a.circles
    &&& b.geocode@ == a.geocode@
    &&& b.altitude == a.altitude
    &&& b.ceiling == a.ceiling
}

pub open spec fn info_from_v1dot1(a: v1dot1::Info, b: Info) -> bool {
    &&& b.language == a.language
    &&& b.categories == a.categories
    &&& b.event == a.event
    &&& b.response_type@.len() == a.response_type@.len()
    &&& forall|i: int| 0 <= i < a.response_type@.len() ==> #[trigger] b.response_type@[i] == response_type_from_v1dot1(a.response_type@[i])
    &&& b.urgency == a.urgency
    &&& b.severity == a.severity
    &&& b.certainty == a.certainty
    &&& b.audience == a.audience
    &&& b.event_codes@ == a.event_codes@
    &&& b.effective == a.effective
    &&& b.onset == a.onset
    &&& b.expires == a.expires
    &&& b.sender_name == a.sender_name
    &&& b.headline == a.headline
    &&& b.description == a.description
    &&& b.instruction == a.instruction
    &&& b.web == a.web
    &&& b.contact == a.contact
    &&& b.parameters@ == a.parameters@
    &&& b.resources@.len() == a.resources@.len()
    &&& forall|i: int| 0 <= i < a.resources@.len() ==> resource_from_v1dot1(#[trigger] a.resources@[i], b.resources@[i])
    &&& b.areas@.len() == a.areas@.len()
    &&& forall|i: int| 0 <= i < a.areas@.len() ==> area_from_v1dot1(#[trigger] a.areas@[i], b.areas@[i])
}

/// Whether `b` is the CAP v1.2 form of the CAP v1.1 alert `a`.
pub open spec fn alert_from_v1dot1(a: v1dot1::Alert, b: Alert) -> bool {
    &&& b.identifier == a.identifier
    &&& b.sender == a.sender
    &&& b.sent == a.sent
    &&& b.status == a.status
    &&& b.message_type == a.message_type
    &&& b.source == a.source
    &&& b.scope == a.scope
    &&& b.restriction == a.restriction
    &&& b.addresses == a.addresses
    &&& b.codes == a.codes
    &&& b.note == a.note
    &&& b.references == a.references
    &&& b.incidents == a.incidents
    &&& b.info@.len() == a.info@.len()
    &&& forall|i: int| 0 <= i < a.info@.len() ==> info_from_v1dot1(#[trigger] a.info@[i], b.info@[i])
}

/// The CAP v1.2 form of a CAP v1.0 resource: no embedded content, and a MIME type that
/// defaults to `application/octet-stream`.
pub open spec fn resource_from_oldest(a: v1dot0::Resource, b: Resource) -> bool {
    &&& b.description == a.description
    &&& b.mime_type@ == mime_or_default(a.mime_type)
    &&& b.size == a.size
    &&& b.uri == a.uri
    &&& b.embedded_content is None
    &&& b.digest == a.digest
}

pub open spec fn area_from_oldest(a: v1dot0::Area, b: Area) -> bool {
    &&& b.description == a.description
    &&& b.polygons == a.polygons
    &&& b.circles == a.circles
    &&& b.geocode@ == a.geocode@
    &&& b.altitude == a.altitude
    &&& b.ceiling == a.ceiling
}

/// The CAP v1.2 form of a CAP v1.0 info block: no response types, categories and certainty
/// mapped to their successors ("Very Likely" becomes "Likely").
pub open spec fn info_from_oldest(a: v1dot0::Info, b: Info) -> bool {
    &&& b.language == a.language
    &&& b.categories@.len() == a.categories@.len()
    &&& forall|i: int| 0 <= i < a.categories@.len() ==> #[trigger] b.categories@[i] == category_from_v1dot0(a.categories@[i])
    &&& b.event == a.event
    &&& b.response_type@.len() == 0
    &&& b.urgency == a.urgency
    &&& b.severity == a.severity
    &&& b.certainty == certainty_from_v1dot0(a.certainty)
    &&& b.audience == a.audience
    &&& b.event_codes@ == a.event_codes@
    &&& b.effective == a.effective
    &&& b.onset == a.onset
    &&& b.expires == a.expires
    &&& b.sender_name == a.sender_name
    &&& b.headline == a.headline
    &&& b.description == a.description
    &&& b.instruction == a.instruction
    &&& b.web == a.web
    &&& b.contact == a.contact
    &&& b.parameters@ == a.parameters@
    &&& b.resources@.len() == a.resources@.len()
    &&& forall|i: int| 0 <= i < a.resources@.len() ==> resource_from_oldest(#[trigger] a.resources@[i], b.resources@[i])
    &&& b.areas@.len() == a.areas@.len()
    &&& forall|i: int| 0 <= i < a.areas@.len() ==> area_from_oldest(#[trigger] a.areas@[i], b.areas@[i])
}

/// Whether `b` is the CAP v1.2 form of the CAP v1.0 alert `a`, stated directly.
pub open spec fn alert_from_oldest(a: v1dot0::Alert, b: Alert) -> bool {
    &&& b.identifier == a.identifier
    &&& b.sender == a.sender
    &&& b.sent == a.sent
    &&& b.status == status_from_v1dot0(a.status)
    &&& b.message_type == a.message_type
    &&& b.source == a.source
    &&& b.scope == a.scope
    &&& b.restriction == a.restriction
    &&& b.addresses == a.addresses
    &&& b.codes == a.codes
    &&& b.note == a.note
    &&& b.references == a.references
    &&& b.incidents == a.incidents
    &&& b.info@.len() == a.info@.len()
    &&& forall|i: int| 0 <= i < a.info@.len() ==> info_from_oldest(#[trigger] a.info@[i], b.info@[i])
}

impl Resource {
    /// Upgrade a CAP v1.1 resource; a missing MIME type becomes `application/octet-stream`.
    pub fn from_v1dot1(prev: v1dot1::Resource) -> (r: Resource)
        ensures
            resource_from_v1dot1(prev, r),
    {
        let mime_type = match prev.mime_type {
            Some(m) => m,
            None => DEFAULT_MIME_TYPE.to_owned(),
        };
        Resource {
            description: prev.description,
            mime_type,
            size: prev.size,
            uri: prev.uri,
            embedded_content: prev.embedded_content,
            digest: prev.digest,
        }
    }
}

impl Area {
    /// Upgrade a CAP v1.1 area.
    pub fn from_v1dot1(prev: v1dot1::Area) -> (r: Area)
        ensures
            area_from_v1dot1(prev, r),
    {
        Area {
            description: prev.description,
            polygons: prev.polygons,
            circles: prev.circles,
            geocode: prev.geocode,
            altitude: prev.altitude,
            ceiling: prev.ceiling,
        }
    }
}

fn response_types_from_v1dot1(v: Vec<v1dot1::ResponseType>) -> (r: Vec<ResponseType>)
    ensures
        r@.len() == v@.len(),
        forall|i: int| 0 <= i < v@.len() ==> #[trigger] r@[i] == response_type_from_v1dot1(v@[i]),
{
    let mut out: Vec<ResponseType> = Vec::new();
    let mut i: usize = 0;
    while i < v.len()
        invariant
            i <= v@.len(),
            out@.len() == i,
            forall|j: int| 0 <= j < i ==> #[trigger] out@[j] == response_type_from_v1dot1(v@[j]),
        decreases v.len() - i,
    {
        out.push(ResponseType::from_v1dot1(v[i]));
        i = i + 1;
    }
    out
}

fn resources_from_v1dot1(v: Vec<v1dot1::Resource>) -> (r: Vec<Resource>)
    ensures
        r@.len() == v@.len(),
        forall|i: int| 0 <= i < v@.len() ==> resource_from_v1dot1(#[trigger] v@[i], r@[i]),
{
    let ghost orig = v@;
    let n = v.len();
    let mut rest = reversed(v);
    let mut out: Vec<Resource> = Vec::new();
    let mut i: usize = 0;
    while i < n
        invariant
            n == orig.len(),
            i <= n,
            rest@.len() == n - i,
            forall|j: int| 0 <= j < n - i ==> #[trigger] rest@[j] == orig[n - 1 - j],
            out@.len() == i,
            forall|j: int| 0 <= j < i ==> resource_from_v1dot1(#[trigger] orig[j], out@[j]),
        decreases n - i,
    {
        let x = rest.pop().unwrap();
        out.push(Resource::from_v1dot1(x));
        i = i + 1;
    }
    out
}

fn areas_from_v1dot1(v: Vec<v1dot1::Area>) -> (r: Vec<Area>)
    ensures
        r@.len() == v@.len(),
        forall|i: int| 0 <= i < v@.len() ==> area_from_v1dot1(#[trigger] v@[i], r@[i]),
{
    let ghost orig = v@;
    let n = v.len();
    let mut rest = reversed(v);
    let mut out: Vec<Area> = Vec::new();
    let mut i: usize = 0;
    while i < n
        invariant
            n == orig.len(),
            i <= n,
            rest@.len() == n - i,
            forall|j: int| 0 <= j < n - i ==> #[trigger] rest@[j] == orig[n - 1 - j],
            out@.len() == i,
            forall|j: int| 0 <= j < i ==> area_from_v1dot1(#[trigger] orig[j], out@[j]),
        decreases n - i,
    {
        let x = rest.pop().unwrap();
        out.push(Area::from_v1dot1(x));
        i = i + 1;
    }
    out
}

impl Info {
    /// Upgrade a CAP v1.1 info block.
    pub fn from_v1dot1(prev: v1dot1::Info) -> (r: Info)
        ensures
            info_from_v1dot1(prev, r),
    {
        Info {
            language: prev.language,
            categories: prev.categories,
            event: prev.event,
            response_type: response_types_from_v1dot1(prev.response_type),
            urgency: prev.urgency,
            severity: prev.severity,
            certainty: prev.certainty,
            audience: prev.audience,
            event_codes: prev.event_codes,
            effective: prev.effective,
            onset: prev.onset,
            expires: prev.expires,
            sender_name: prev.sender_name,
            headline: prev.headline,
            description: prev.description,
            instruction: prev.instruction,
            web: prev.web,
            contact: prev.contact,
            parameters: prev.parameters,
            resources: resources_from_v1dot1(prev.resources),
            areas: areas_from_v1dot1(prev.areas),
        }
    }
}

fn infos_from_v1dot1(v: Vec<v1dot1::Info>) -> (r: Vec<Info>)
    ensures
        r@.len() == v@.len(),
        forall|i: int| 0 <= i < v@.len() ==> info_from_v1dot1(#[trigger] v@[i], r@[i]),
{
    let ghost orig = v@;
    let n = v.len();
    let mut rest = reversed(v);
    let mut out: Vec<Info> = Vec::new();
    let mut i: usize = 0;
    while i < n
        invariant
            n == orig.len(),
            i <= n,
            rest@.len() == n - i,
            forall|j: int| 0 <= j < n - i ==> #[trigger] rest@[j] == orig[n - 1 - j],
            out@.len() == i,
            forall|j: int| 0 <= j < i ==> info_from_v1dot1(#[trigger] orig[j], out@[j]),
        decreases n - i,
    {
        let x = rest.pop().unwrap();
        out.push(Info::from_v1dot1(x));
        i = i + 1;
    }
    out
}

impl Alert {
    /// Upgrade a CAP v1.1 alert. This never fails.
    pub fn from_v1dot1(prev: v1dot1::Alert) -> (r: Alert)
        ensures
            alert_from_v1dot1(prev, r),
    {
        Alert {
            identifier: prev.identifier,
            sender: prev.sender,
            sent: prev.sent,
            status: prev.status,
            message_type: prev.message_type,
            source: prev.source,
            scope: prev.scope,
            restriction: prev.restriction,
            addresses: prev.addresses,
            codes: prev.codes,
            note: prev.note,
            references: prev.references,
            incidents: prev.incidents,
            info: infos_from_v1dot1(prev.info),
        }
    }

    /// Upgrade a CAP v1.0 alert through CAP v1.1. This never fails.
    pub fn from_v1dot0(prev: v1dot0::Alert) -> (r: Alert)
        ensures
            alert_from_oldest(prev, r),
    {
        let ghost a = prev;
        let mid = v1dot1::Alert::from_v1dot0(prev);
        let r = Alert::from_v1dot1(mid);
        proof {
            lemma_upgrades_compose(a, mid, r);
        }
        r
    }
}

/// Upgrading a CAP v1.0 alert to CAP v1.1 and that to CAP v1.2 gives its direct CAP v1.2
/// form: the two steps compose into the stated one.
pub proof fn lemma_upgrades_compose(a: v1dot0::Alert, b: v1dot1::Alert, c: Alert)
    requires
        alert_from_v1dot0(a, b),
        alert_from_v1dot1(b, c),
    ensures
        alert_from_oldest(a, c),
{
    assert forall|i: int| 0 <= i < a.info@.len() implies info_from_oldest(
        #[trigger] a.info@[i],
        c.info@[i],
    ) by {
        let x = a.info@[i];
        let y = b.info@[i];
        let z = c.info@[i];
        assert(info_from_v1dot0(x, y));
        assert(info_from_v1dot1(y, z));
        assert forall|j: int| 0 <= j < x.resources@.len() implies resource_from_oldest(
            #[trigger] x.resources@[j],
            z.resources@[j],
        ) by {
            assert(resource_from_v1dot0(x.resources@[j], y.resources@[j]));
            assert(resource_from_v1dot1(y.resources@[j], z.resources@[j]));
        }
        assert forall|j: int| 0 <= j < x.areas@.len() implies area_from_oldest(
            #[trigger] x.areas@[j],
            z.areas@[j],
        ) by {
            assert(area_from_v1dot0(x.areas@[j], y.areas@[j]));
            assert(area_from_v1dot1(y.areas@[j], z.areas@[j]));
        }
    }
}

/// In the CAP v1.2 form of a CAP v1.0 alert, "Very Likely" reads "Likely" and a resource
/// without a MIME type has `application/octet-stream`.
pub proof fn lemma_oldest_upgrade_semantics(a: v1dot0::Alert, c: Alert, i: int, j: int)
    requires
        alert_from_oldest(a, c),
        0 <= i < a.info@.len(),
    ensures
        a.info@[i].certainty == v1dot0::Certainty::VeryLikely ==> c.info@[i].certainty
            == Certainty::Likely,
        0 <= j < a.info@[i].resources@.len() && a.info@[i].resources@[j].mime_type is None
            ==> c.info@[i].resources@[j].mime_type@ == DEFAULT_MIME_TYPE@,
{
    assert(info_from_oldest(a.info@[i], c.info@[i]));
    if 0 <= j < a.info@[i].resources@.len() {
        assert(resource_from_oldest(a.info@[i].resources@[j], c.info@[i].resources@[j]));
    }
}

} // verus!
