//! Information blocks between the binary form and the dialects.

use vstd::prelude::*;
use crate::datetime::{DateTime, DateTimeParseError};
use crate::language::{is_language_tag, InvalidLanguageError, Language};
use crate::protobuf::area_conversion::{
    area_decoded_v1dot0, area_decoded_v1dot1, area_decoded_v1dot2, area_encoded_v1dot0,
    area_encoded_v1dot1, area_encoded_v1dot2, area_fits_v1dot0, key_map_from_pairs, keys_ok,
    map_from_pairs, pairs_from_key_map, pairs_from_map, pairs_view, shapes_ok,
};
use crate::protobuf::codes::{
    category_code, category_from_v1dot0, category_from_v1dot1, certainty_code, certainty_from_v1dot0, certainty_from_v1dot1, response_type_code, response_type_from_v1dot1, response_type_from_v1dot2, severity_code, severity_from_v1dot0, spec_category_from_v1dot0, spec_category_from_v1dot1, spec_certainty_from_v1dot0, spec_certainty_from_v1dot1, spec_response_type_from_v1dot1, spec_response_type_from_v1dot2, spec_severity_from_v1dot0, spec_urgency_from_v1dot0, urgency_code, urgency_from_v1dot0, Category, Certainty, ResponseType, Severity, Urgency, category_of_code, category_to_v1dot0, category_to_v1dot1, certainty_of_code, certainty_to_v1dot0, certainty_to_v1dot1, response_type_of_code, response_type_to_v1dot1, response_type_to_v1dot2, severity_of_code, severity_to_v1dot0, spec_category_to_v1dot0, spec_category_to_v1dot1, spec_certainty_to_v1dot0, spec_certainty_to_v1dot1, spec_response_type_to_v1dot1, spec_response_type_to_v1dot2, spec_severity_to_v1dot0, spec_urgency_to_v1dot0, urgency_of_code, urgency_to_v1dot0,
};
use crate::protobuf::resource_conversion::{
    resource_decoded_v1dot0, resource_decoded_v1dot1, resource_decoded_v1dot2,
    resource_encoded_v1dot0, resource_encoded_v1dot1, resource_encoded_v1dot2, resource_fits,
    resource_fits_v1dot0,
};
use crate::protobuf::{
    datetime, datetime_decoded, datetime_ok, datetime_string, AreaConversionError, Info,
    ResourceConversionError,
};
use crate::protobuf;
use crate::url::{lenient_url, Url};
use crate::v1dot0::map::InvalidKeyError;
use crate::vecs::reversed;
use crate::{v1dot0, v1dot1, v1dot2};

verus! {

/// The error returned when a binary information block does not fit a dialect.
#[derive(Debug, Clone, PartialEq, Eq)]
pub enum InfoConversionError {
    /// The language is invalid.
    Language(InvalidLanguageError),
    /// A category code is unknown.
    Category(i32),
    /// A category does not exist in the dialect.
    UnrepresentableCategory(Category),
    /// A response type code is unknown.
    ResponseType(i32),
    /// A response type does not exist in the dialect.
    UnrepresentableResponseType(ResponseType),
    /// The urgency code is unknown.
    Urgency(i32),
    /// The severity code is unknown.
    Severity(i32),
    /// The certainty code is unknown.
    Certainty(i32),
    /// The certainty does not exist in the dialect.
    UnrepresentableCertainty(Certainty),
    /// An event code key is invalid for CAP v1.0.
    EventCode(InvalidKeyError),
    /// The effective time is invalid.
    Effective(DateTimeParseError),
    /// The onset time is invalid.
    Onset(DateTimeParseError),
    /// The expiry time is invalid.
    Expires(DateTimeParseError),
    /// The web address is not usable; this is it.
    Web(String),
    /// A parameter key is invalid for CAP v1.0.
    Parameters(InvalidKeyError),
    /// A resource is invalid.
    Resource(ResourceConversionError),
    /// An area is invalid.
    Area(AreaConversionError),
}

/// Which field an information block error is about, as a position in the order of checks
/// that `info_failure_v1dot0` and `info_failure` follow.
pub open spec fn info_error_kind(e: InfoConversionError) -> int {
    match e {
        InfoConversionError::ResponseType(_) => 0,
        InfoConversionError::UnrepresentableResponseType(_) => 0,
        InfoConversionError::Language(_) => 1,
        InfoConversionError::Category(_) => 2,
        InfoConversionError::UnrepresentableCategory(_) => 2,
        InfoConversionError::Urgency(_) => 3,
        InfoConversionError::Severity(_) => 4,
        InfoConversionError::Certainty(_) => 5,
        InfoConversionError::UnrepresentableCertainty(_) => 5,
        InfoConversionError::EventCode(_) => 6,
        InfoConversionError::Effective(_) => 7,
        InfoConversionError::Onset(_) => 8,
        InfoConversionError::Expires(_) => 9,
        InfoConversionError::Web(_) => 10,
        InfoConversionError::Parameters(_) => 11,
        InfoConversionError::Resource(_) => 12,
        InfoConversionError::Area(_) => 13,
    }
}

/// The first field of a binary information block that does not fit CAP v1.0, checked in
/// order: response types (which CAP v1.0 lacks), language, categories, urgency, severity,
/// certainty, event codes, the three times, web, parameters, resources, areas.
pub open spec fn info_failure_v1dot0(v: Info) -> Option<int> {
    if v.response_type@.len() > 0 {
        Some(0)
    } else if !language_ok(v.language) {
        Some(1)
    } else if !categories_fit_v1dot0(v.category@) {
        Some(2)
    } else if urgency_of_code(v.urgency) is None {
        Some(3)
    } else if severity_of_code(v.severity) is None {
        Some(4)
    } else if !certainty_fits_v1dot0(v.certainty) {
        Some(5)
    } else if !keys_ok(v.event_code@) {
        Some(6)
    } else if !datetime_ok(v.effective) {
        Some(7)
    } else if !datetime_ok(v.onset) {
        Some(8)
    } else if !datetime_ok(v.expires) {
        Some(9)
    } else if !web_ok(v.web) {
        Some(10)
    } else if !keys_ok(v.parameter@) {
        Some(11)
    } else if !(forall|i: int| 0 <= i < v.resource@.len() ==> resource_fits_v1dot0(#[trigger] v.resource@[i])) {
        Some(12)
    } else if !(forall|i: int| 0 <= i < v.area@.len() ==> area_fits_v1dot0(#[trigger] v.area@[i])) {
        Some(13)
    } else {
        None
    }
}

/// The first field of a binary information block that does not fit CAP v1.1 (`newest`
/// false) or v1.2 (`newest` true), checked in order: language, categories, response types,
/// urgency, severity, certainty, the three times, web, resources, areas.
pub open spec fn info_failure(v: Info, newest: bool) -> Option<int> {
    if !language_ok(v.language) {
        Some(1)
    } else if !categories_fit(v.category@) {
        Some(2)
    } else if !(if newest { response_types_fit(v.response_type@) } else { response_types_fit_v1dot1(v.response_type@) }) {
        Some(0)
    } else if urgency_of_code(v.urgency) is None {
        Some(3)
    } else if severity_of_code(v.severity) is None {
        Some(4)
    } else if certainty_of_code(v.certainty) is None {
        Some(5)
    } else if !datetime_ok(v.effective) {
        Some(7)
    } else if !datetime_ok(v.onset) {
        Some(8)
    } else if !datetime_ok(v.expires) {
        Some(9)
    } else if !web_ok(v.web) {
        Some(10)
    } else if !(forall|i: int| 0 <= i < v.resource@.len() ==> resource_fits(#[trigger] v.resource@[i])) {
        Some(12)
    } else if !(forall|i: int| 0 <= i < v.area@.len() ==> shapes_ok(#[trigger] v.area@[i])) {
        Some(13)
    } else {
        None
    }
}

pub open spec fn language_ok(l: Option<String>) -> bool {
    match l {
        Some(s) => s@.len() == 0 || is_language_tag(s@),
        None => true,
    }
}

pub open spec fn language_decoded(l: Option<String>, r: Language) -> bool {
    match l {
        Some(s) => if s@.len() == 0 {
            r.tag() is None
        } else {
            r.tag() == Some(s@)
        },
        None => r.tag() is None,
    }
}

pub open spec fn language_encoded(l: Language, r: Option<String>) -> bool {
    match r {
        Some(s) => l.tag() == Some(s@),
        None => l.tag() is None,
    }
}

pub open spec fn web_ok(s: Option<String>) -> bool {
    match s {
        Some(t) => lenient_url(t@) is Some,
        None => true,
    }
}

pub open spec fn web_decoded(s: Option<String>, r: Option<Url>) -> bool {
    crate::protobuf::resource_conversion::uri_decoded(s, r)
}

pub open spec fn web_encoded(u: Option<Url>, r: Option<String>) -> bool {
    crate::protobuf::resource_conversion::uri_encoded(u, r)
}

/// Whether every category code names a category of CAP v1.0.
pub open spec fn categories_fit_v1dot0(cs: Seq<i32>) -> bool {
    forall|i: int| 0 <= i < cs.len() ==> ((#[trigger] category_of_code(cs[i])) matches Some(c)
        && spec_category_to_v1dot0(c) is Ok)
}

pub open spec fn categories_fit(cs: Seq<i32>) -> bool {
    forall|i: int| 0 <= i < cs.len() ==> (#[trigger] category_of_code(cs[i])) is Some
}

pub open spec fn response_types_fit_v1dot1(ts: Seq<i32>) -> bool {
    forall|i: int| 0 <= i < ts.len() ==> ((#[trigger] response_type_of_code(ts[i])) matches Some(t)
        && spec_response_type_to_v1dot1(t) is Ok)
}

pub open spec fn response_types_fit(ts: Seq<i32>) -> bool {
    forall|i: int| 0 <= i < ts.len() ==> (#[trigger] response_type_of_code(ts[i])) is Some
}

pub open spec fn certainty_fits_v1dot0(c: i32) -> bool {
    certainty_of_code(c) matches Some(x) && spec_certainty_to_v1dot0(x) is Ok
}

pub open spec fn times_ok(v: Info) -> bool {
    datetime_ok(v.effective) && datetime_ok(v.onset) && datetime_ok(v.expires)
}

pub open spec fn time_wf(d: Option<DateTime>) -> bool {
    d matches Some(x) ==> x.wf()
}

pub open spec fn time_encoded(d: Option<DateTime>, r: Option<String>) -> bool {
    match d {
        Some(x) => r matches Some(t) && t@ == crate::datetime::datetime_text(x),
        None => r is None,
    }
}

/// The fields that come before the certainty in a CAP v1.0 conversion all fit.
pub open spec fn info_prefix_fits_v1dot0(v: Info) -> bool {
    &&& v.response_type@.len() == 0
    &&& language_ok(v.language)
    &&& categories_fit_v1dot0(v.category@)
    &&& urgency_of_code(v.urgency) is Some
    &&& severity_of_code(v.severity) is Some
}

/// Whether a binary information block converts to CAP v1.0, which has no response types.
pub open spec fn info_fits_v1dot0(v: Info) -> bool {
    &&& info_prefix_fits_v1dot0(v)
    &&& certainty_fits_v1dot0(v.certainty)
    &&& keys_ok(v.event_code@)
    &&& times_ok(v)
    &&& web_ok(v.web)
    &&& keys_ok(v.parameter@)
    &&& forall|i: int| 0 <= i < v.resource@.len() ==> resource_fits_v1dot0(#[trigger] v.resource@[i])
    &&& forall|i: int| 0 <= i < v.area@.len() ==> area_fits_v1dot0(#[trigger] v.area@[i])
}

/// Whether a binary information block converts to CAP v1.1.
pub open spec fn info_fits_v1dot1(v: Info) -> bool {
    &&& language_ok(v.language)
    &&& categories_fit(v.category@)
    &&& response_types_fit_v1dot1(v.response_type@)
    &&& urgency_of_code(v.urgency) is Some
    &&& severity_of_code(v.severity) is Some
    &&& certainty_of_code(v.certainty) is Some
    &&& times_ok(v)
    &&& web_ok(v.web)
    &&& forall|i: int| 0 <= i < v.resource@.len() ==> resource_fits(#[trigger] v.resource@[i])
    &&& forall|i: int| 0 <= i < v.area@.len() ==> shapes_ok(#[trigger] v.area@[i])
}

/// Whether a binary information block converts to CAP v1.2.
pub open spec fn info_fits_v1dot2(v: Info) -> bool {
    &&& language_ok(v.language)
    &&& categories_fit(v.category@)
    &&& response_types_fit(v.response_type@)
    &&& urgency_of_code(v.urgency) is Some
    &&& severity_of_code(v.severity) is Some
    &&& certainty_of_code(v.certainty) is Some
    &&& times_ok(v)
    &&& web_ok(v.web)
    &&& forall|i: int| 0 <= i < v.resource@.len() ==> resource_fits(#[trigger] v.resource@[i])
    &&& forall|i: int| 0 <= i < v.area@.len() ==> shapes_ok(#[trigger] v.area@[i])
}

pub open spec fn common_decoded(v: Info, language: Language, event: String, urgency: v1dot0::Urgency, severity: v1dot0::Severity,
    audience: Option<String>, effective: Option<DateTime>, onset: Option<DateTime>, expires: Option<DateTime>,
    sender_name: Option<String>, headline: Option<String>, description: Option<String>, instruction: Option<String>,
    web: Option<Url>, contact: Option<String>) -> bool {
    &&& language_decoded(v.language, language)
    &&& event == v.event
    &&& Some(urgency) == match urgency_of_code(v.urgency) { Some(u) => Some(spec_urgency_to_v1dot0(u)), None => None }
    &&& Some(severity) == match severity_of_code(v.severity) { Some(s) => Some(spec_severity_to_v1dot0(s)), None => None }
    &&& audience == v.audience
    &&& datetime_decoded(v.effective, effective)
    &&& datetime_decoded(v.onset, onset)
    &&& datetime_decoded(v.expires, expires)
    &&& sender_name == v.sender_name
    &&& headline == v.headline
    &&& description == v.description
    &&& instruction == v.instruction
    &&& web_decoded(v.web, web)
    &&& contact == v.contact
}

pub open spec fn info_decoded_v1dot0(v: Info, r: v1dot0::Info) -> bool {
    &&& common_decoded(v, r.language, r.event, r.urgency, r.severity, r.audience, r.effective, r.onset, r.expires, r.sender_name, r.headline, r.description, r.instruction, r.web, r.contact)
    &&& r.categories@.len() == v.category@.len()
    &&& forall|i: int| 0 <= i < v.category@.len() ==> spec_category_to_v1dot0(category_of_code(v.category@[i])->0) == Ok::<v1dot0::Category, Category>(#[trigger] r.categories@[i])
    &&& spec_certainty_to_v1dot0(certainty_of_code(v.certainty)->0) == Ok::<v1dot0::Certainty, Certainty>(r.certainty)
    &&& r.event_codes@ == pairs_view(v.event_code@)
    &&& r.parameters@ == pairs_view(v.parameter@)
    &&& r.resources@.len() == v.resource@.len()
    &&& forall|i: int| 0 <= i < v.resource@.len() ==> resource_decoded_v1dot0(v.resource@[i], #[trigger] r.resources@[i])
    &&& r.areas@.len() == v.area@.len()
    &&& forall|i: int| 0 <= i < v.area@.len() ==> area_decoded_v1dot0(v.area@[i], #[trigger] r.areas@[i])
}

pub open spec fn info_decoded_v1dot1(v: Info, r: v1dot1::Info) -> bool {
    &&& common_decoded(v, r.language, r.event, r.urgency, r.severity, r.audience, r.effective, r.onset, r.expires, r.sender_name, r.headline, r.description, r.instruction, r.web, r.contact)
    &&& r.categories@.len() == v.category@.len()
    &&& forall|i: int| 0 <= i < v.category@.len() ==> #[trigger] r.categories@[i] == spec_category_to_v1dot1(category_of_code(v.category@[i])->0)
    &&& r.response_type@.len() == v.response_type@.len()
    &&& forall|i: int| 0 <= i < v.response_type@.len() ==> spec_response_type_to_v1dot1(response_type_of_code(v.response_type@[i])->0) == Ok::<v1dot1::ResponseType, ResponseType>(#[trigger] r.response_type@[i])
    &&& r.certainty == spec_certainty_to_v1dot1(certainty_of_code(v.certainty)->0)
    &&& r.event_codes@ == pairs_view(v.event_code@)
    &&& r.parameters@ == pairs_view(v.parameter@)
    &&& r.resources@.len() == v.resource@.len()
    &&& forall|i: int| 0 <= i < v.resource@.len() ==> resource_decoded_v1dot1(v.resource@[i], #[trigger] r.resources@[i])
    &&& r.areas@.len() == v.area@.len()
    &&& forall|i: int| 0 <= i < v.area@.len() ==> area_decoded_v1dot1(v.area@[i], #[trigger] r.areas@[i])
}

pub open spec fn info_decoded_v1dot2(v: Info, r: v1dot2::Info) -> bool {
    &&& common_decoded(v, r.language, r.event, r.urgency, r.severity, r.audience, r.effective, r.onset, r.expires, r.sender_name, r.headline, r.description, r.instruction, r.web, r.contact)
    &&& r.categories@.len() == v.category@.len()
    &&& forall|i: int| 0 <= i < v.category@.len() ==> #[trigger] r.categories@[i] == spec_category_to_v1dot1(category_of_code(v.category@[i])->0)
    &&& r.response_type@.len() == v.response_type@.len()
    &&& forall|i: int| 0 <= i < v.response_type@.len() ==> #[trigger] r.response_type@[i] == spec_response_type_to_v1dot2(response_type_of_code(v.response_type@[i])->0)
    &&& r.certainty == spec_certainty_to_v1dot1(certainty_of_code(v.certainty)->0)
    &&& r.event_codes@ == pairs_view(v.event_code@)
    &&& r.parameters@ == pairs_view(v.parameter@)
    &&& r.resources@.len() == v.resource@.len()
    &&& forall|i: int| 0 <= i < v.resource@.len() ==> resource_decoded_v1dot2(v.resource@[i], #[trigger] r.resources@[i])
    &&& r.areas@.len() == v.area@.len()
    &&& forall|i: int| 0 <= i < v.area@.len() ==> area_decoded_v1dot2(v.area@[i], #[trigger] r.areas@[i])
}

fn categories_to_v1dot0(v: Vec<i32>) -> (r: Result<Vec<v1dot0::Category>, InfoConversionError>)
    ensures
        r matches Err(e) ==> info_error_kind(e) == 2,
        (forall|i: int| 0 <= i < v@.len() ==> (category_of_code(#[trigger] v@[i]) matches Some(c) && spec_category_to_v1dot0(c) is Ok)) <==> r is Ok,
        r matches Ok(out) ==> out@.len() == v@.len() && forall|i: int| 0 <= i < v@.len() ==> spec_category_to_v1dot0(category_of_code(v@[i])->0) == Ok::<v1dot0::Category, Category>(#[trigger] out@[i]),
{
    let mut out: Vec<v1dot0::Category> = Vec::new();
    let mut i: usize = 0;
    while i < v.len()
        invariant
            i <= v@.len(),
            out@.len() == i,
            forall|j: int| 0 <= j < i ==> (category_of_code(#[trigger] v@[j]) matches Some(c) && spec_category_to_v1dot0(c) is Ok),
            forall|j: int| 0 <= j < i ==> spec_category_to_v1dot0(category_of_code(v@[j])->0) == Ok::<v1dot0::Category, Category>(#[trigger] out@[j]),
        decreases v.len() - i,
    {
        let x = v[i];
        assert(x == v@[i as int]);
        match Category::from_i32(x) {
            None => {
                return Err(InfoConversionError::Category(x));
            },
            Some(c) => match category_to_v1dot0(c) {
                Ok(d) => out.push(d),
                Err(u) => {
                    return Err(InfoConversionError::UnrepresentableCategory(u));
                },
            },
        }
        i = i + 1;
    }
    Ok(out)
}

fn categories_to_v1dot1(v: Vec<i32>) -> (r: Result<Vec<v1dot1::Category>, InfoConversionError>)
    ensures
        r matches Err(e) ==> info_error_kind(e) == 2,
        (forall|i: int| 0 <= i < v@.len() ==> category_of_code(#[trigger] v@[i]) is Some) <==> r is Ok,
        r matches Ok(out) ==> out@.len() == v@.len() && forall|i: int| 0 <= i < v@.len() ==> #[trigger] out@[i] == spec_category_to_v1dot1(category_of_code(v@[i])->0),
{
    let mut out: Vec<v1dot1::Category> = Vec::new();
    let mut i: usize = 0;
    while i < v.len()
        invariant
            i <= v@.len(),
            out@.len() == i,
            forall|j: int| 0 <= j < i ==> category_of_code(#[trigger] v@[j]) is Some,
            forall|j: int| 0 <= j < i ==> #[trigger] out@[j] == spec_category_to_v1dot1(category_of_code(v@[j])->0),
        decreases v.len() - i,
    {
        let x = v[i];
        assert(x == v@[i as int]);
        match Category::from_i32(x) {
            None => {
                return Err(InfoConversionError::Category(x));
            },
            Some(c) => out.push(category_to_v1dot1(c)),
        }
        i = i + 1;
    }
    Ok(out)
}

fn response_types_to_v1dot1(v: Vec<i32>) -> (r: Result<Vec<v1dot1::ResponseType>, InfoConversionError>)
    ensures
        r matches Err(e) ==> info_error_kind(e) == 0,
        (forall|i: int| 0 <= i < v@.len() ==> (response_type_of_code(#[trigger] v@[i]) matches Some(t) && spec_response_type_to_v1dot1(t) is Ok)) <==> r is Ok,
        r matches Ok(out) ==> out@.len() == v@.len() && forall|i: int| 0 <= i < v@.len() ==> spec_response_type_to_v1dot1(response_type_of_code(v@[i])->0) == Ok::<v1dot1::ResponseType, ResponseType>(#[trigger] out@[i]),
{
    let mut out: Vec<v1dot1::ResponseType> = Vec::new();
    let mut i: usize = 0;
    while i < v.len()
        invariant
            i <= v@.len(),
            out@.len() == i,
            forall|j: int| 0 <= j < i ==> (response_type_of_code(#[trigger] v@[j]) matches Some(t) && spec_response_type_to_v1dot1(t) is Ok),
            forall|j: int| 0 <= j < i ==> spec_response_type_to_v1dot1(response_type_of_code(v@[j])->0) == Ok::<v1dot1::ResponseType, ResponseType>(#[trigger] out@[j]),
        decreases v.len() - i,
    {
        let x = v[i];
        assert(x == v@[i as int]);
        match ResponseType::from_i32(x) {
            None => {
                return Err(InfoConversionError::ResponseType(x));
            },
            Some(t) => match response_type_to_v1dot1(t) {
                Ok(d) => out.push(d),
                Err(u) => {
                    return Err(InfoConversionError::UnrepresentableResponseType(u));
                },
            },
        }
        i = i + 1;
    }
    Ok(out)
}

fn response_types_to_v1dot2(v: Vec<i32>) -> (r: Result<Vec<v1dot2::ResponseType>, InfoConversionError>)
    ensures
        r matches Err(e) ==> info_error_kind(e) == 0,
        (forall|i: int| 0 <= i < v@.len() ==> response_type_of_code(#[trigger] v@[i]) is Some) <==> r is Ok,
        r matches Ok(out) ==> out@.len() == v@.len() && forall|i: int| 0 <= i < v@.len() ==> #[trigger] out@[i] == spec_response_type_to_v1dot2(response_type_of_code(v@[i])->0),
{
    let mut out: Vec<v1dot2::ResponseType> = Vec::new();
    let mut i: usize = 0;
    while i < v.len()
        invariant
            i <= v@.len(),
            out@.len() == i,
            forall|j: int| 0 <= j < i ==> response_type_of_code(#[trigger] v@[j]) is Some,
            forall|j: int| 0 <= j < i ==> #[trigger] out@[j] == spec_response_type_to_v1dot2(response_type_of_code(v@[j])->0),
        decreases v.len() - i,
    {
        let x = v[i];
        assert(x == v@[i as int]);
        match ResponseType::from_i32(x) {
            None => {
                return Err(InfoConversionError::ResponseType(x));
            },
            Some(t) => out.push(response_type_to_v1dot2(t)),
        }
        i = i + 1;
    }
    Ok(out)
}

fn resources_to_v1dot0(v: Vec<protobuf::Resource>) -> (r: Result<Vec<v1dot0::Resource>, InfoConversionError>)
    ensures
        r matches Err(e) ==> info_error_kind(e) == 12,
        (forall|i: int| 0 <= i < v@.len() ==> resource_fits_v1dot0(#[trigger] v@[i])) <==> r is Ok,
        r matches Ok(out) ==> out@.len() == v@.len() && forall|i: int| 0 <= i < v@.len() ==> resource_decoded_v1dot0(v@[i], #[trigger] out@[i]),
{
    let ghost orig = v@;
    let n = v.len();
    let mut rest = reversed(v);
    let mut out: Vec<v1dot0::Resource> = Vec::new();
    let mut i: usize = 0;
    while i < n
        invariant
            n == orig.len(),
            orig == v@,
            i <= n,
            rest@.len() == n - i,
            forall|j: int| 0 <= j < n - i ==> #[trigger] rest@[j] == orig[n - 1 - j],
            out@.len() == i,
            forall|j: int| 0 <= j < i ==> resource_fits_v1dot0(#[trigger] orig[j]),
            forall|j: int| 0 <= j < i ==> resource_decoded_v1dot0(orig[j], #[trigger] out@[j]),
        decreases n - i,
    {
        assert(rest@[n - i - 1] == orig[i as int]);
        let x = rest.pop().unwrap();
        match v1dot0::Resource::try_from_protobuf(x) {
            Ok(d) => out.push(d),
            Err(e) => {
                return Err(InfoConversionError::Resource(e));
            },
        }
        i = i + 1;
    }
    Ok(out)
}

fn resources_to_v1dot1(v: Vec<protobuf::Resource>) -> (r: Result<Vec<v1dot1::Resource>, InfoConversionError>)
    ensures
        r matches Err(e) ==> info_error_kind(e) == 12,
        (forall|i: int| 0 <= i < v@.len() ==> resource_fits(#[trigger] v@[i])) <==> r is Ok,
        r matches Ok(out) ==> out@.len() == v@.len() && forall|i: int| 0 <= i < v@.len() ==> resource_decoded_v1dot1(v@[i], #[trigger] out@[i]),
{
    let ghost orig = v@;
    let n = v.len();
    let mut rest = reversed(v);
    let mut out: Vec<v1dot1::Resource> = Vec::new();
    let mut i: usize = 0;
    while i < n
        invariant
            n == orig.len(),
            orig == v@,
            i <= n,
            rest@.len() == n - i,
            forall|j: int| 0 <= j < n - i ==> #[trigger] rest@[j] == orig[n - 1 - j],
            out@.len() == i,
            forall|j: int| 0 <= j < i ==> resource_fits(#[trigger] orig[j]),
            forall|j: int| 0 <= j < i ==> resource_decoded_v1dot1(orig[j], #[trigger] out@[j]),
        decreases n - i,
    {
        assert(rest@[n - i - 1] == orig[i as int]);
        let x = rest.pop().unwrap();
        match v1dot1::Resource::try_from_protobuf(x) {
            Ok(d) => out.push(d),
            Err(e) => {
                return Err(InfoConversionError::Resource(e));
            },
        }
        i = i + 1;
    }
    Ok(out)
}

fn resources_to_v1dot2(v: Vec<protobuf::Resource>) -> (r: Result<Vec<v1dot2::Resource>, InfoConversionError>)
    ensures
        r matches Err(e) ==> info_error_kind(e) == 12,
        (forall|i: int| 0 <= i < v@.len() ==> resource_fits(#[trigger] v@[i])) <==> r is Ok,
        r matches Ok(out) ==> out@.len() == v@.len() && forall|i: int| 0 <= i < v@.len() ==> resource_decoded_v1dot2(v@[i], #[trigger] out@[i]),
{
    let ghost orig = v@;
    let n = v.len();
    let mut rest = reversed(v);
    let mut out: Vec<v1dot2::Resource> = Vec::new();
    let mut i: usize = 0;
    while i < n
        invariant
            n == orig.len(),
            orig == v@,
            i <= n,
            rest@.len() == n - i,
            forall|j: int| 0 <= j < n - i ==> #[trigger] rest@[j] == orig[n - 1 - j],
            out@.len() == i,
            forall|j: int| 0 <= j < i ==> resource_fits(#[trigger] orig[j]),
            forall|j: int| 0 <= j < i ==> resource_decoded_v1dot2(orig[j], #[trigger] out@[j]),
        decreases n - i,
    {
        assert(rest@[n - i - 1] == orig[i as int]);
        let x = rest.pop().unwrap();
        match v1dot2::Resource::try_from_protobuf(x) {
            Ok(d) => out.push(d),
            Err(e) => {
                return Err(InfoConversionError::Resource(e));
            },
        }
        i = i + 1;
    }
    Ok(out)
}

fn areas_to_v1dot0(v: Vec<protobuf::Area>) -> (r: Result<Vec<v1dot0::Area>, InfoConversionError>)
    ensures
        r matches Err(e) ==> info_error_kind(e) == 13,
        (forall|i: int| 0 <= i < v@.len() ==> area_fits_v1dot0(#[trigger] v@[i])) <==> r is Ok,
        r matches Ok(out) ==> out@.len() == v@.len() && forall|i: int| 0 <= i < v@.len() ==> area_decoded_v1dot0(v@[i], #[trigger] out@[i]),
{
    let ghost orig = v@;
    let n = v.len();
    let mut rest = reversed(v);
    let mut out: Vec<v1dot0::Area> = Vec::new();
    let mut i: usize = 0;
    while i < n
        invariant
            n == orig.len(),
            orig == v@,
            i <= n,
            rest@.len() == n - i,
            forall|j: int| 0 <= j < n - i ==> #[trigger] rest@[j] == orig[n - 1 - j],
            out@.len() == i,
            forall|j: int| 0 <= j < i ==> area_fits_v1dot0(#[trigger] orig[j]),
            forall|j: int| 0 <= j < i ==> area_decoded_v1dot0(orig[j], #[trigger] out@[j]),
        decreases n - i,
    {
        assert(rest@[n - i - 1] == orig[i as int]);
        let x = rest.pop().unwrap();
        match v1dot0::Area::try_from_protobuf(x) {
            Ok(d) => out.push(d),
            Err(e) => {
                return Err(InfoConversionError::Area(e));
            },
        }
        i = i + 1;
    }
    Ok(out)
}

fn areas_to_v1dot1(v: Vec<protobuf::Area>) -> (r: Result<Vec<v1dot1::Area>, InfoConversionError>)
    ensures
        r matches Err(e) ==> info_error_kind(e) == 13,
        (forall|i: int| 0 <= i < v@.len() ==> shapes_ok(#[trigger] v@[i])) <==> r is Ok,
        r matches Ok(out) ==> out@.len() == v@.len() && forall|i: int| 0 <= i < v@.len() ==> area_decoded_v1dot1(v@[i], #[trigger] out@[i]),
{
    let ghost orig = v@;
    let n = v.len();
    let mut rest = reversed(v);
    let mut out: Vec<v1dot1::Area> = Vec::new();
    let mut i: usize = 0;
    while i < n
        invariant
            n == orig.len(),
            orig == v@,
            i <= n,
            rest@.len() == n - i,
            forall|j: int| 0 <= j < n - i ==> #[trigger] rest@[j] == orig[n - 1 - j],
            out@.len() == i,
            forall|j: int| 0 <= j < i ==> shapes_ok(#[trigger] orig[j]),
            forall|j: int| 0 <= j < i ==> area_decoded_v1dot1(orig[j], #[trigger] out@[j]),
        decreases n - i,
    {
        assert(rest@[n - i - 1] == orig[i as int]);
        let x = rest.pop().unwrap();
        match v1dot1::Area::try_from_protobuf(x) {
            Ok(d) => out.push(d),
            Err(e) => {
                return Err(InfoConversionError::Area(e));
            },
        }
        i = i + 1;
    }
    Ok(out)
}

fn areas_to_v1dot2(v: Vec<protobuf::Area>) -> (r: Result<Vec<v1dot2::Area>, InfoConversionError>)
    ensures
        r matches Err(e) ==> info_error_kind(e) == 13,
        (forall|i: int| 0 <= i < v@.len() ==> shapes_ok(#[trigger] v@[i])) <==> r is Ok,
        r matches Ok(out) ==> out@.len() == v@.len() && forall|i: int| 0 <= i < v@.len() ==> area_decoded_v1dot2(v@[i], #[trigger] out@[i]),
{
    let ghost orig = v@;
    let n = v.len();
    let mut rest = reversed(v);
    let mut out: Vec<v1dot2::Area> = Vec::new();
    let mut i: usize = 0;
    while i < n
        invariant
            n == orig.len(),
            orig == v@,
            i <= n,
            rest@.len() == n - i,
            forall|j: int| 0 <= j < n - i ==> #[trigger] rest@[j] == orig[n - 1 - j],
            out@.len() == i,
            forall|j: int| 0 <= j < i ==> shapes_ok(#[trigger] orig[j]),
            forall|j: int| 0 <= j < i ==> area_decoded_v1dot2(orig[j], #[trigger] out@[j]),
        decreases n - i,
    {
        assert(rest@[n - i - 1] == orig[i as int]);
        let x = rest.pop().unwrap();
        match v1dot2::Area::try_from_protobuf(x) {
            Ok(d) => out.push(d),
            Err(e) => {
                return Err(InfoConversionError::Area(e));
            },
        }
        i = i + 1;
    }
    Ok(out)
}

fn language_from(l: Option<String>) -> (r: Result<Language, InfoConversionError>)
    ensures
        r matches Err(e) ==> info_error_kind(e) == 1,
        language_ok(l) <==> r is Ok,
        r matches Ok(x) ==> language_decoded(l, x),
{
    match Language::new(l) {
        Ok(x) => Ok(x),
        Err(e) => Err(InfoConversionError::Language(e)),
    }
}

fn urgency_from(c: i32) -> (r: Result<v1dot0::Urgency, InfoConversionError>)
    ensures
        r matches Err(e) ==> e == InfoConversionError::Urgency(c),
        r matches Err(e) ==> info_error_kind(e) == 3,
        urgency_of_code(c) is Some <==> r is Ok,
        r matches Ok(x) ==> x == spec_urgency_to_v1dot0(urgency_of_code(c)->0),
{
    match Urgency::from_i32(c) {
        Some(u) => Ok(urgency_to_v1dot0(u)),
        None => Err(InfoConversionError::Urgency(c)),
    }
}

fn severity_from(c: i32) -> (r: Result<v1dot0::Severity, InfoConversionError>)
    ensures
        r matches Err(e) ==> e == InfoConversionError::Severity(c),
        r matches Err(e) ==> info_error_kind(e) == 4,
        severity_of_code(c) is Some <==> r is Ok,
        r matches Ok(x) ==> x == spec_severity_to_v1dot0(severity_of_code(c)->0),
{
    match Severity::from_i32(c) {
        Some(s) => Ok(severity_to_v1dot0(s)),
        None => Err(InfoConversionError::Severity(c)),
    }
}

fn web_from(s: Option<String>) -> (r: Result<Option<Url>, InfoConversionError>)
    ensures
        r matches Err(e) ==> info_error_kind(e) == 10,
        web_ok(s) <==> r is Ok,
        r matches Ok(x) ==> web_decoded(s, x),
{
    match s {
        Some(t) => match Url::parse_lenient(t.as_str()) {
            Ok(u) => Ok(u),
            Err(_) => Err(InfoConversionError::Web(t)),
        },
        None => Ok(None),
    }
}

fn web_to(u: Option<Url>) -> (r: Option<String>)
    ensures
        web_encoded(u, r),
{
    match u {
        Some(x) => Some(x.to_string()),
        None => None,
    }
}

impl v1dot0::Info {
    /// Convert a binary information block to CAP v1.0, which has no response types and no
    /// "Observed" certainty; fields are checked in order and the first failure is returned.
    pub fn try_from_protobuf(value: Info) -> (r: Result<v1dot0::Info, InfoConversionError>)
        ensures
            info_fits_v1dot0(value) <==> r is Ok,
            r matches Ok(x) ==> info_decoded_v1dot0(value, x),
            r matches Err(e) ==> info_failure_v1dot0(value) == Some(info_error_kind(e)),
            value.response_type@.len() > 0 ==> r == Err::<v1dot0::Info, InfoConversionError>(
                match response_type_of_code(value.response_type@[0]) {
                    None => InfoConversionError::ResponseType(value.response_type@[0]),
                    Some(t) => InfoConversionError::UnrepresentableResponseType(t),
                },
            ),
            info_failure_v1dot0(value) == Some(3int) ==> r == Err::<v1dot0::Info, InfoConversionError>(InfoConversionError::Urgency(value.urgency)),
            info_failure_v1dot0(value) == Some(4int) ==> r == Err::<v1dot0::Info, InfoConversionError>(InfoConversionError::Severity(value.severity)),
            info_failure_v1dot0(value) == Some(5int) ==> r == Err::<v1dot0::Info, InfoConversionError>(match certainty_of_code(value.certainty) {
                None => InfoConversionError::Certainty(value.certainty),
                Some(c) => InfoConversionError::UnrepresentableCertainty(c),
            }),

            info_prefix_fits_v1dot0(value) && certainty_of_code(value.certainty) == Some(Certainty::Observed)
                ==> r == Err::<v1dot0::Info, InfoConversionError>(InfoConversionError::UnrepresentableCertainty(Certainty::Observed)),
    {
        if value.response_type.len() > 0 {
            let v = value.response_type[0];
            return match ResponseType::from_i32(v) {
                None => Err(InfoConversionError::ResponseType(v)),
                Some(t) => Err(InfoConversionError::UnrepresentableResponseType(t)),
            };
        }
        let language = language_from(value.language)?;
        let categories = categories_to_v1dot0(value.category)?;
        let urgency = urgency_from(value.urgency)?;
        let severity = severity_from(value.severity)?;
        let certainty = match Certainty::from_i32(value.certainty) {
            None => {
                return Err(InfoConversionError::Certainty(value.certainty));
            },
            Some(c) => match certainty_to_v1dot0(c) {
                Ok(x) => x,
                Err(u) => {
                    return Err(InfoConversionError::UnrepresentableCertainty(u));
                },
            },
        };
        let event_codes = match key_map_from_pairs(value.event_code) {
            Ok(m) => m,
            Err(e) => {
                return Err(InfoConversionError::EventCode(e));
            },
        };
        let effective = match datetime(value.effective) {
            Ok(d) => d,
            Err(e) => {
                return Err(InfoConversionError::Effective(e));
            },
        };
        let onset = match datetime(value.onset) {
            Ok(d) => d,
            Err(e) => {
                return Err(InfoConversionError::Onset(e));
            },
        };
        let expires = match datetime(value.expires) {
            Ok(d) => d,
            Err(e) => {
                return Err(InfoConversionError::Expires(e));
            },
        };
        let web = web_from(value.web)?;
        let parameters = match key_map_from_pairs(value.parameter) {
            Ok(m) => m,
            Err(e) => {
                return Err(InfoConversionError::Parameters(e));
            },
        };
        let resources = resources_to_v1dot0(value.resource)?;
        let areas = areas_to_v1dot0(value.area)?;
        Ok(v1dot0::Info {
            language,
            categories,
            event: value.event,
            urgency,
            severity,
            certainty,
            audience: value.audience,
            event_codes,
            effective,
            onset,
            expires,
            sender_name: value.sender_name,
            headline: value.headline,
            description: value.description,
            instruction: value.instruction,
            web,
            contact: value.contact,
            parameters,
            resources,
            areas,
        })
    }
}

impl v1dot1::Info {
    /// Convert a binary information block; fields are checked in order and the first
    /// failure is returned.
    pub fn try_from_protobuf(value: Info) -> (r: Result<v1dot1::Info, InfoConversionError>)
        ensures
            info_fits_v1dot1(value) <==> r is Ok,
            r matches Ok(x) ==> info_decoded_v1dot1(value, x),
            r matches Err(e) ==> info_failure(value, false) == Some(info_error_kind(e)),
            info_failure(value, false) == Some(3int) ==> r == Err::<v1dot1::Info, InfoConversionError>(InfoConversionError::Urgency(value.urgency)),
            info_failure(value, false) == Some(4int) ==> r == Err::<v1dot1::Info, InfoConversionError>(InfoConversionError::Severity(value.severity)),
            info_failure(value, false) == Some(5int) ==> r == Err::<v1dot1::Info, InfoConversionError>(InfoConversionError::Certainty(value.certainty)),

    {
        let language = language_from(value.language)?;
        let categories = categories_to_v1dot1(value.category)?;
        let response_type = response_types_to_v1dot1(value.response_type)?;
        let urgency = urgency_from(value.urgency)?;
        let severity = severity_from(value.severity)?;
        let certainty = match Certainty::from_i32(value.certainty) {
            None => {
                return Err(InfoConversionError::Certainty(value.certainty));
            },
            Some(c) => certainty_to_v1dot1(c),
        };
        let event_codes = map_from_pairs(value.event_code);
        let effective = match datetime(value.effective) {
            Ok(d) => d,
            Err(e) => {
                return Err(InfoConversionError::Effective(e));
            },
        };
        let onset = match datetime(value.onset) {
            Ok(d) => d,
            Err(e) => {
                return Err(InfoConversionError::Onset(e));
            },
        };
        let expires = match datetime(value.expires) {
            Ok(d) => d,
            Err(e) => {
                return Err(InfoConversionError::Expires(e));
            },
        };
        let web = web_from(value.web)?;
        let parameters = map_from_pairs(value.parameter);
        let resources = resources_to_v1dot1(value.resource)?;
        let areas = areas_to_v1dot1(value.area)?;
        Ok(v1dot1::Info {
            language,
            categories,
            event: value.event,
            response_type,
            urgency,
            severity,
            certainty,
            audience: value.audience,
            event_codes,
            effective,
            onset,
            expires,
            sender_name: value.sender_name,
            headline: value.headline,
            description: value.description,
            instruction: value.instruction,
            web,
            contact: value.contact,
            parameters,
            resources,
            areas,
        })
    }
}

impl v1dot2::Info {
    /// Convert a binary information block; fields are checked in order and the first
    /// failure is returned.
    pub fn try_from_protobuf(value: Info) -> (r: Result<v1dot2::Info, InfoConversionError>)
        ensures
            info_fits_v1dot2(value) <==> r is Ok,
            r matches Ok(x) ==> info_decoded_v1dot2(value, x),
            r matches Err(e) ==> info_failure(value, true) == Some(info_error_kind(e)),
            info_failure(value, true) == Some(3int) ==> r == Err::<v1dot2::Info, InfoConversionError>(InfoConversionError::Urgency(value.urgency)),
            info_failure(value, true) == Some(4int) ==> r == Err::<v1dot2::Info, InfoConversionError>(InfoConversionError::Severity(value.severity)),
            info_failure(value, true) == Some(5int) ==> r == Err::<v1dot2::Info, InfoConversionError>(InfoConversionError::Certainty(value.certainty)),

    {
        let language = language_from(value.language)?;
        let categories = categories_to_v1dot1(value.category)?;
        let response_type = response_types_to_v1dot2(value.response_type)?;
        let urgency = urgency_from(value.urgency)?;
        let severity = severity_from(value.severity)?;
        let certainty = match Certainty::from_i32(value.certainty) {
            None => {
                return Err(InfoConversionError::Certainty(value.certainty));
            },
            Some(c) => certainty_to_v1dot1(c),
        };
        let event_codes = map_from_pairs(value.event_code);
        let effective = match datetime(value.effective) {
            Ok(d) => d,
            Err(e) => {
                return Err(InfoConversionError::Effective(e));
            },
        };
        let onset = match datetime(value.onset) {
            Ok(d) => d,
            Err(e) => {
                return Err(InfoConversionError::Onset(e));
            },
        };
        let expires = match datetime(value.expires) {
            Ok(d) => d,
            Err(e) => {
                return Err(InfoConversionError::Expires(e));
            },
        };
        let web = web_from(value.web)?;
        let parameters = map_from_pairs(value.parameter);
        let resources = resources_to_v1dot2(value.resource)?;
        let areas = areas_to_v1dot2(value.area)?;
        Ok(v1dot2::Info {
            language,
            categories,
            event: value.event,
            response_type,
            urgency,
            severity,
            certainty,
            audience: value.audience,
            event_codes,
            effective,
            onset,
            expires,
            sender_name: value.sender_name,
            headline: value.headline,
            description: value.description,
            instruction: value.instruction,
            web,
            contact: value.contact,
            parameters,
            resources,
            areas,
        })
    }
}

fn category_codes_v1dot0(v: Vec<v1dot0::Category>) -> (r: Vec<i32>)
    ensures
        r@.len() == v@.len(),
        forall|i: int| 0 <= i < v@.len() ==> #[trigger] r@[i] == category_code(spec_category_from_v1dot0(v@[i])),
{
    let mut out: Vec<i32> = Vec::new();
    let mut i: usize = 0;
    while i < v.len()
        invariant
            i <= v@.len(),
            out@.len() == i,
            forall|j: int| 0 <= j < i ==> #[trigger] out@[j] == category_code(spec_category_from_v1dot0(v@[j])),
        decreases v.len() - i,
    {
        out.push(category_from_v1dot0(v[i]).code());
        i = i + 1;
    }
    out
}

fn category_codes_v1dot1(v: Vec<v1dot1::Category>) -> (r: Vec<i32>)
    ensures
        r@.len() == v@.len(),
        forall|i: int| 0 <= i < v@.len() ==> #[trigger] r@[i] == category_code(spec_category_from_v1dot1(v@[i])),
{
    let mut out: Vec<i32> = Vec::new();
    let mut i: usize = 0;
    while i < v.len()
        invariant
            i <= v@.len(),
            out@.len() == i,
            forall|j: int| 0 <= j < i ==> #[trigger] out@[j] == category_code(spec_category_from_v1dot1(v@[j])),
        decreases v.len() - i,
    {
        out.push(category_from_v1dot1(v[i]).code());
        i = i + 1;
    }
    out
}

fn response_type_codes_v1dot1(v: Vec<v1dot1::ResponseType>) -> (r: Vec<i32>)
    ensures
        r@.len() == v@.len(),
        forall|i: int| 0 <= i < v@.len() ==> #[trigger] r@[i] == response_type_code(spec_response_type_from_v1dot1(v@[i])),
{
    let mut out: Vec<i32> = Vec::new();
    let mut i: usize = 0;
    while i < v.len()
        invariant
            i <= v@.len(),
            out@.len() == i,
            forall|j: int| 0 <= j < i ==> #[trigger] out@[j] == response_type_code(spec_response_type_from_v1dot1(v@[j])),
        decreases v.len() - i,
    {
        out.push(response_type_from_v1dot1(v[i]).code());
        i = i + 1;
    }
    out
}

fn response_type_codes_v1dot2(v: Vec<v1dot2::ResponseType>) -> (r: Vec<i32>)
    ensures
        r@.len() == v@.len(),
        forall|i: int| 0 <= i < v@.len() ==> #[trigger] r@[i] == response_type_code(spec_response_type_from_v1dot2(v@[i])),
{
    let mut out: Vec<i32> = Vec::new();
    let mut i: usize = 0;
    while i < v.len()
        invariant
            i <= v@.len(),
            out@.len() == i,
            forall|j: int| 0 <= j < i ==> #[trigger] out@[j] == response_type_code(spec_response_type_from_v1dot2(v@[j])),
        decreases v.len() - i,
    {
        out.push(response_type_from_v1dot2(v[i]).code());
        i = i + 1;
    }
    out
}

fn resources_from_v1dot0(v: Vec<v1dot0::Resource>) -> (r: Vec<protobuf::Resource>)
    ensures
        r@.len() == v@.len(),
        forall|i: int| 0 <= i < v@.len() ==> resource_encoded_v1dot0(v@[i], #[trigger] r@[i]),
{
    let ghost orig = v@;
    let n = v.len();
    let mut rest = reversed(v);
    let mut out: Vec<protobuf::Resource> = Vec::new();
    let mut i: usize = 0;
    while i < n
        invariant
            n == orig.len(),
            orig == v@,
            i <= n,
            rest@.len() == n - i,
            forall|j: int| 0 <= j < n - i ==> #[trigger] rest@[j] == orig[n - 1 - j],
            out@.len() == i,
            forall|j: int| 0 <= j < i ==> resource_encoded_v1dot0(orig[j], #[trigger] out@[j]),
        decreases n - i,
    {
        assert(rest@[n - i - 1] == orig[i as int]);
        let x = rest.pop().unwrap();
        out.push(protobuf::Resource::from_v1dot0(x));
        i = i + 1;
    }
    out
}

fn areas_from_v1dot0(v: Vec<v1dot0::Area>) -> (r: Vec<protobuf::Area>)
    ensures
        r@.len() == v@.len(),
        forall|i: int| 0 <= i < v@.len() ==> area_encoded_v1dot0(v@[i], #[trigger] r@[i]),
{
    let ghost orig = v@;
    let n = v.len();
    let mut rest = reversed(v);
    let mut out: Vec<protobuf::Area> = Vec::new();
    let mut i: usize = 0;
    while i < n
        invariant
            n == orig.len(),
            orig == v@,
            i <= n,
            rest@.len() == n - i,
            forall|j: int| 0 <= j < n - i ==> #[trigger] rest@[j] == orig[n - 1 - j],
            out@.len() == i,
            forall|j: int| 0 <= j < i ==> area_encoded_v1dot0(orig[j], #[trigger] out@[j]),
        decreases n - i,
    {
        assert(rest@[n - i - 1] == orig[i as int]);
        let x = rest.pop().unwrap();
        out.push(protobuf::Area::from_v1dot0(x));
        i = i + 1;
    }
    out
}

fn resources_from_v1dot1(v: Vec<v1dot1::Resource>) -> (r: Vec<protobuf::Resource>)
    ensures
        r@.len() == v@.len(),
        forall|i: int| 0 <= i < v@.len() ==> resource_encoded_v1dot1(v@[i], #[trigger] r@[i]),
{
    let ghost orig = v@;
    let n = v.len();
    let mut rest = reversed(v);
    let mut out: Vec<protobuf::Resource> = Vec::new();
    let mut i: usize = 0;
    while i < n
        invariant
            n == orig.len(),
            orig == v@,
            i <= n,
            rest@.len() == n - i,
            forall|j: int| 0 <= j < n - i ==> #[trigger] rest@[j] == orig[n - 1 - j],
            out@.len() == i,
            forall|j: int| 0 <= j < i ==> resource_encoded_v1dot1(orig[j], #[trigger] out@[j]),
        decreases n - i,
    {
        assert(rest@[n - i - 1] == orig[i as int]);
        let x = rest.pop().unwrap();
        out.push(protobuf::Resource::from_v1dot1(x));
        i = i + 1;
    }
    out
}

fn areas_from_v1dot1(v: Vec<v1dot1::Area>) -> (r: Vec<protobuf::Area>)
    ensures
        r@.len() == v@.len(),
        forall|i: int| 0 <= i < v@.len() ==> area_encoded_v1dot1(v@[i], #[trigger] r@[i]),
{
    let ghost orig = v@;
    let n = v.len();
    let mut rest = reversed(v);
    let mut out: Vec<protobuf::Area> = Vec::new();
    let mut i: usize = 0;
    while i < n
        invariant
            n == orig.len(),
            orig == v@,
            i <= n,
            rest@.len() == n - i,
            forall|j: int| 0 <= j < n - i ==> #[trigger] rest@[j] == orig[n - 1 - j],
            out@.len() == i,
            forall|j: int| 0 <= j < i ==> area_encoded_v1dot1(orig[j], #[trigger] out@[j]),
        decreases n - i,
    {
        assert(rest@[n - i - 1] == orig[i as int]);
        let x = rest.pop().unwrap();
        out.push(protobuf::Area::from_v1dot1(x));
        i = i + 1;
    }
    out
}

fn resources_from_v1dot2(v: Vec<v1dot2::Resource>) -> (r: Vec<protobuf::Resource>)
    ensures
        r@.len() == v@.len(),
        forall|i: int| 0 <= i < v@.len() ==> resource_encoded_v1dot2(v@[i], #[trigger] r@[i]),
{
    let ghost orig = v@;
    let n = v.len();
    let mut rest = reversed(v);
    let mut out: Vec<protobuf::Resource> = Vec::new();
    let mut i: usize = 0;
    while i < n
        invariant
            n == orig.len(),
            orig == v@,
            i <= n,
            rest@.len() == n - i,
            forall|j: int| 0 <= j < n - i ==> #[trigger] rest@[j] == orig[n - 1 - j],
            out@.len() == i,
            forall|j: int| 0 <= j < i ==> resource_encoded_v1dot2(orig[j], #[trigger] out@[j]),
        decreases n - i,
    {
        assert(rest@[n - i - 1] == orig[i as int]);
        let x = rest.pop().unwrap();
        out.push(protobuf::Resource::from_v1dot2(x));
        i = i + 1;
    }
    out
}

fn areas_from_v1dot2(v: Vec<v1dot2::Area>) -> (r: Vec<protobuf::Area>)
    ensures
        r@.len() == v@.len(),
        forall|i: int| 0 <= i < v@.len() ==> area_encoded_v1dot2(v@[i], #[trigger] r@[i]),
{
    let ghost orig = v@;
    let n = v.len();
    let mut rest = reversed(v);
    let mut out: Vec<protobuf::Area> = Vec::new();
    let mut i: usize = 0;
    while i < n
        invariant
            n == orig.len(),
            orig == v@,
            i <= n,
            rest@.len() == n - i,
            forall|j: int| 0 <= j < n - i ==> #[trigger] rest@[j] == orig[n - 1 - j],
            out@.len() == i,
            forall|j: int| 0 <= j < i ==> area_encoded_v1dot2(orig[j], #[trigger] out@[j]),
        decreases n - i,
    {
        assert(rest@[n - i - 1] == orig[i as int]);
        let x = rest.pop().unwrap();
        out.push(protobuf::Area::from_v1dot2(x));
        i = i + 1;
    }
    out
}

/// Whether the timestamps of an information block are valid, so that it can be written.
pub open spec fn times_wf(effective: Option<DateTime>, onset: Option<DateTime>, expires: Option<DateTime>) -> bool {
    time_wf(effective) && time_wf(onset) && time_wf(expires)
}

pub open spec fn common_encoded(language: Language, event: String, urgency: v1dot0::Urgency, severity: v1dot0::Severity,
    audience: Option<String>, effective: Option<DateTime>, onset: Option<DateTime>, expires: Option<DateTime>,
    sender_name: Option<String>, headline: Option<String>, description: Option<String>, instruction: Option<String>,
    web: Option<Url>, contact: Option<String>, v: Info) -> bool {
    &&& language_encoded(language, v.language)
    &&& v.event == event
    &&& v.urgency == urgency_code(spec_urgency_from_v1dot0(urgency))
    &&& v.severity == severity_code(spec_severity_from_v1dot0(severity))
    &&& v.audience == audience
    &&& time_encoded(effective, v.effective)
    &&& time_encoded(onset, v.onset)
    &&& time_encoded(expires, v.expires)
    &&& v.sender_name == sender_name
    &&& v.headline == headline
    &&& v.description == description
    &&& v.instruction == instruction
    &&& web_encoded(web, v.web)
    &&& v.contact == contact
}

pub open spec fn info_encoded_v1dot0(r: v1dot0::Info, v: Info) -> bool {
    &&& common_encoded(r.language, r.event, r.urgency, r.severity, r.audience, r.effective, r.onset, r.expires, r.sender_name, r.headline, r.description, r.instruction, r.web, r.contact, v)
    &&& v.category@.len() == r.categories@.len()
    &&& forall|i: int| 0 <= i < r.categories@.len() ==> #[trigger] v.category@[i] == category_code(spec_category_from_v1dot0(r.categories@[i]))
    &&& v.response_type@.len() == 0
    &&& v.certainty == certainty_code(spec_certainty_from_v1dot0(r.certainty))
    &&& pairs_view(v.event_code@) == r.event_codes@
    &&& pairs_view(v.parameter@) == r.parameters@
    &&& v.resource@.len() == r.resources@.len()
    &&& forall|i: int| 0 <= i < r.resources@.len() ==> resource_encoded_v1dot0(r.resources@[i], #[trigger] v.resource@[i])
    &&& v.area@.len() == r.areas@.len()
    &&& forall|i: int| 0 <= i < r.areas@.len() ==> area_encoded_v1dot0(r.areas@[i], #[trigger] v.area@[i])
}

impl protobuf::Info {
    /// The binary form of a v1dot0 information block.
    pub fn from_v1dot0(value: v1dot0::Info) -> (r: protobuf::Info)
        requires
            times_wf(value.effective, value.onset, value.expires),
        ensures
            info_encoded_v1dot0(value, r),
    {
        let language = value.language.into_inner();
        protobuf::Info {
            language,
            category: category_codes_v1dot0(value.categories),
            event: value.event,
            response_type: Vec::new(),
            urgency: urgency_from_v1dot0(value.urgency).code(),
            severity: severity_from_v1dot0(value.severity).code(),
            certainty: certainty_from_v1dot0(value.certainty).code(),
            audience: value.audience,
            event_code: pairs_from_key_map(value.event_codes),
            effective: datetime_string(value.effective),
            onset: datetime_string(value.onset),
            expires: datetime_string(value.expires),
            sender_name: value.sender_name,
            headline: value.headline,
            description: value.description,
            instruction: value.instruction,
            web: web_to(value.web),
            contact: value.contact,
            parameter: pairs_from_key_map(value.parameters),
            resource: resources_from_v1dot0(value.resources),
            area: areas_from_v1dot0(value.areas),
        }
    }
}

pub open spec fn info_encoded_v1dot1(r: v1dot1::Info, v: Info) -> bool {
    &&& common_encoded(r.language, r.event, r.urgency, r.severity, r.audience, r.effective, r.onset, r.expires, r.sender_name, r.headline, r.description, r.instruction, r.web, r.contact, v)
    &&& v.category@.len() == r.categories@.len()
    &&& forall|i: int| 0 <= i < r.categories@.len() ==> #[trigger] v.category@[i] == category_code(spec_category_from_v1dot1(r.categories@[i]))
    &&& v.response_type@.len() == r.response_type@.len()
    &&& forall|i: int| 0 <= i < r.response_type@.len() ==> #[trigger] v.response_type@[i] == response_type_code(spec_response_type_from_v1dot1(r.response_type@[i]))
    &&& v.certainty == certainty_code(spec_certainty_from_v1dot1(r.certainty))
    &&& pairs_view(v.event_code@) == r.event_codes@
    &&& pairs_view(v.parameter@) == r.parameters@
    &&& v.resource@.len() == r.resources@.len()
    &&& forall|i: int| 0 <= i < r.resources@.len() ==> resource_encoded_v1dot1(r.resources@[i], #[trigger] v.resource@[i])
    &&& v.area@.len() == r.areas@.len()
    &&& forall|i: int| 0 <= i < r.areas@.len() ==> area_encoded_v1dot1(r.areas@[i], #[trigger] v.area@[i])
}

impl protobuf::Info {
    /// The binary form of a v1dot1 information block.
    pub fn from_v1dot1(value: v1dot1::Info) -> (r: protobuf::Info)
        requires
            times_wf(value.effective, value.onset, value.expires),
        ensures
            info_encoded_v1dot1(value, r),
    {
        let language = value.language.into_inner();
        protobuf::Info {
            language,
            category: category_codes_v1dot1(value.categories),
            event: value.event,
            response_type: response_type_codes_v1dot1(value.response_type),
            urgency: urgency_from_v1dot0(value.urgency).code(),
            severity: severity_from_v1dot0(value.severity).code(),
            certainty: certainty_from_v1dot1(value.certainty).code(),
            audience: value.audience,
            event_code: pairs_from_map(value.event_codes),
            effective: datetime_string(value.effective),
            onset: datetime_string(value.onset),
            expires: datetime_string(value.expires),
            sender_name: value.sender_name,
            headline: value.headline,
            description: value.description,
            instruction: value.instruction,
            web: web_to(value.web),
            contact: value.contact,
            parameter: pairs_from_map(value.parameters),
            resource: resources_from_v1dot1(value.resources),
            area: areas_from_v1dot1(value.areas),
        }
    }
}

pub open spec fn info_encoded_v1dot2(r: v1dot2::Info, v: Info) -> bool {
    &&& common_encoded(r.language, r.event, r.urgency, r.severity, r.audience, r.effective, r.onset, r.expires, r.sender_name, r.headline, r.description, r.instruction, r.web, r.contact, v)
    &&& v.category@.len() == r.categories@.len()
    &&& forall|i: int| 0 <= i < r.categories@.len() ==> #[trigger] v.category@[i] == category_code(spec_category_from_v1dot1(r.categories@[i]))
    &&& v.response_type@.len() == r.response_type@.len()
    &&& forall|i: int| 0 <= i < r.response_type@.len() ==> #[trigger] v.response_type@[i] == response_type_code(spec_response_type_from_v1dot2(r.response_type@[i]))
    &&& v.certainty == certainty_code(spec_certainty_from_v1dot1(r.certainty))
    &&& pairs_view(v.event_code@) == r.event_codes@
    &&& pairs_view(v.parameter@) == r.parameters@
    &&& v.resource@.len() == r.resources@.len()
    &&& forall|i: int| 0 <= i < r.resources@.len() ==> resource_encoded_v1dot2(r.resources@[i], #[trigger] v.resource@[i])
    &&& v.area@.len() == r.areas@.len()
    &&& forall|i: int| 0 <= i < r.areas@.len() ==> area_encoded_v1dot2(r.areas@[i], #[trigger] v.area@[i])
}

impl protobuf::Info {
    /// The binary form of a v1dot2 information block.
    pub fn from_v1dot2(value: v1dot2::Info) -> (r: protobuf::Info)
        requires
            times_wf(value.effective, value.onset, value.expires),
        ensures
            info_encoded_v1dot2(value, r),
    {
        let language = value.language.into_inner();
        protobuf::Info {
            language,
            category: category_codes_v1dot1(value.categories),
            event: value.event,
            response_type: response_type_codes_v1dot2(value.response_type),
            urgency: urgency_from_v1dot0(value.urgency).code(),
            severity: severity_from_v1dot0(value.severity).code(),
            certainty: certainty_from_v1dot1(value.certainty).code(),
            audience: value.audience,
            event_code: pairs_from_map(value.event_codes),
            effective: datetime_string(value.effective),
            onset: datetime_string(value.onset),
            expires: datetime_string(value.expires),
            sender_name: value.sender_name,
            headline: value.headline,
            description: value.description,
            instruction: value.instruction,
            web: web_to(value.web),
            contact: value.contact,
            parameter: pairs_from_map(value.parameters),
            resource: resources_from_v1dot2(value.resources),
            area: areas_from_v1dot2(value.areas),
        }
    }
}

} // verus!
