//! Alerts between the binary form and the dialects, and the dispatch on the dialect.

use vstd::prelude::*;
use crate::datetime::{datetime_of, DateTime, DateTimeParseError};
use crate::delimited_items::{is_item, InvalidItemError, Item, Items};
use crate::id::{id_outcome, Id, InvalidIdError};
use crate::protobuf::codes::{
    msg_type_code, msg_type_from_v1dot0, msg_type_of_code, msg_type_to_v1dot0, scope_code,
    scope_from_v1dot0, scope_of_code, scope_to_v1dot0, spec_msg_type_from_v1dot0,
    spec_msg_type_to_v1dot0, spec_scope_from_v1dot0, spec_scope_to_v1dot0,
    spec_status_from_v1dot0, spec_status_from_v1dot1, spec_status_to_v1dot0,
    spec_status_to_v1dot1, status_code, status_from_v1dot0, status_from_v1dot1, status_of_code,
    status_to_v1dot0, status_to_v1dot1, MsgType, Scope, Status,
};
use crate::protobuf::info_conversion::{
    info_decoded_v1dot0, info_decoded_v1dot1, info_decoded_v1dot2, info_encoded_v1dot0,
    info_encoded_v1dot1, info_encoded_v1dot2, info_fits_v1dot0, info_fits_v1dot1,
    info_fits_v1dot2, times_wf,
};
use crate::protobuf::{Alert, Group, InfoConversionError};
use crate::protobuf;
use crate::references::{reference_outcome, reference_text, Reference, ReferenceError, References};
use crate::text::{chars_of, str_eq};
use crate::vecs::reversed;
use crate::{v1dot0, v1dot1, v1dot2};

verus! {

/// The error returned when a binary alert does not fit a dialect.
#[derive(Debug, Clone, PartialEq, Eq)]
pub enum AlertConversionError {
    /// The namespace names no dialect; this is it.
    Xmlns(String),
    /// The identifier is invalid.
    Identifier(InvalidIdError),
    /// The sender is invalid.
    Sender(InvalidIdError),
    /// The sending time is invalid.
    Sent(DateTimeParseError),
    /// The status code is unknown.
    Status(i32),
    /// The status does not exist in the dialect.
    UnrepresentableStatus(Status),
    /// The message type code is unknown.
    MessageType(i32),
    /// The scope code is unknown.
    Scope(i32),
    /// The scope is missing.
    ScopeMissing,
    /// An address is invalid.
    Addresses(InvalidItemError),
    /// A reference is invalid.
    References(ReferenceError),
    /// An incident is invalid.
    Incidents(InvalidItemError),
    /// An information block is invalid.
    Info(InfoConversionError),
}

/// Which field an alert error is about, as a position in the order of checks that
/// `alert_failure` follows.
pub open spec fn alert_error_kind(e: AlertConversionError) -> int {
    match e {
        AlertConversionError::Identifier(_) => 0,
        AlertConversionError::Sender(_) => 1,
        AlertConversionError::Sent(_) => 2,
        AlertConversionError::Status(_) => 3,
        AlertConversionError::UnrepresentableStatus(_) => 3,
        AlertConversionError::MessageType(_) => 4,
        AlertConversionError::Scope(_) => 5,
        AlertConversionError::ScopeMissing => 5,
        AlertConversionError::Addresses(_) => 6,
        AlertConversionError::References(_) => 7,
        AlertConversionError::Incidents(_) => 8,
        AlertConversionError::Info(_) => 9,
        AlertConversionError::Xmlns(_) => 10,
    }
}

/// Whether the status code fits the dialect: CAP v1.0 (`oldest`) has no draft status.
pub open spec fn status_fits(c: i32, oldest: bool) -> bool {
    if oldest {
        status_of_code(c) matches Some(s) && spec_status_to_v1dot0(s) is Ok
    } else {
        status_of_code(c) is Some
    }
}

/// The first field of a binary alert that does not fit a dialect, checked in order:
/// identifier, sender, sent, status, message type, scope, addresses, references, incidents,
/// and then the information blocks, whose fit `infos_fit` gives.
pub open spec fn alert_failure(v: Alert, oldest: bool, infos_fit: bool) -> Option<int> {
    if id_outcome(v.identifier@) is Err {
        Some(0)
    } else if id_outcome(v.sender@) is Err {
        Some(1)
    } else if datetime_of(v.sent@) is None {
        Some(2)
    } else if !status_fits(v.status, oldest) {
        Some(3)
    } else if msg_type_of_code(v.msg_type) is None {
        Some(4)
    } else if !(v.scope matches Some(c) && scope_of_code(c) is Some) {
        Some(5)
    } else if !items_ok(v.addresses) {
        Some(6)
    } else if !references_ok(v.references) {
        Some(7)
    } else if !items_ok(v.incidents) {
        Some(8)
    } else if !infos_fit {
        Some(9)
    } else {
        None
    }
}

/// The error of the first string of `v` that is not a valid reference.
pub open spec fn first_reference_error(v: Seq<String>) -> Option<ReferenceError> {
    if exists|k: int| 0 <= k < v.len() && (#[trigger] reference_outcome(v[k]@)) is Err {
        let k = choose|k: int|
            0 <= k < v.len() && (#[trigger] reference_outcome(v[k]@)) is Err && forall|j: int|
                0 <= j < k ==> (#[trigger] reference_outcome(v[j]@)) is Ok;
        Some(reference_outcome(v[k]@)->Err_0)
    } else {
        None
    }
}

/// The error that the first failing field among the envelope fields of a binary alert gives,
/// checked in order: identifier, sender, sent, status (CAP v1.0, `oldest`, has no draft
/// status), message type, scope, addresses, references, incidents; `None` where they all
/// fit, so that only the information blocks can fail.
pub open spec fn alert_error(v: Alert, oldest: bool) -> Option<AlertConversionError> {
    if id_outcome(v.identifier@) is Err {
        Some(AlertConversionError::Identifier(id_outcome(v.identifier@)->Err_0))
    } else if id_outcome(v.sender@) is Err {
        Some(AlertConversionError::Sender(id_outcome(v.sender@)->Err_0))
    } else if datetime_of(v.sent@) is None {
        Some(AlertConversionError::Sent(DateTimeParseError))
    } else if status_of_code(v.status) is None {
        Some(AlertConversionError::Status(v.status))
    } else if oldest && spec_status_to_v1dot0(status_of_code(v.status)->0) is Err {
        Some(AlertConversionError::UnrepresentableStatus(spec_status_to_v1dot0(status_of_code(v.status)->0)->Err_0))
    } else if msg_type_of_code(v.msg_type) is None {
        Some(AlertConversionError::MessageType(v.msg_type))
    } else if v.scope is None {
        Some(AlertConversionError::ScopeMissing)
    } else if scope_of_code(v.scope->0) is None {
        Some(AlertConversionError::Scope(v.scope->0))
    } else if !items_ok(v.addresses) {
        Some(AlertConversionError::Addresses(InvalidItemError))
    } else if !references_ok(v.references) {
        Some(AlertConversionError::References(first_reference_error(v.references->0.value@)->0))
    } else if !items_ok(v.incidents) {
        Some(AlertConversionError::Incidents(InvalidItemError))
    } else {
        None
    }
}

/// Whether an optional group converts to items.
pub open spec fn items_ok(g: Option<Group>) -> bool {
    match g {
        Some(x) => forall|i: int| 0 <= i < x.value@.len() ==> is_item(#[trigger] x.value@[i]@),
        None => true,
    }
}

pub open spec fn items_decoded(g: Option<Group>, r: Option<Items>) -> bool {
    match g {
        Some(x) => r matches Some(it) && it@ == x.value@.map_values(|s: String| s@),
        None => r is None,
    }
}

pub open spec fn items_encoded(r: Option<Items>, g: Option<Group>) -> bool {
    match r {
        Some(it) => g matches Some(x) && x.value@.map_values(|s: String| s@) == it@,
        None => g is None,
    }
}

pub open spec fn references_ok(g: Option<Group>) -> bool {
    match g {
        Some(x) => forall|i: int| 0 <= i < x.value@.len() ==> (#[trigger] reference_outcome(x.value@[i]@)) is Ok,
        None => true,
    }
}

pub open spec fn references_decoded(g: Option<Group>, r: Option<References>) -> bool {
    match g {
        Some(x) => r matches Some(rs) && rs@.len() == x.value@.len() && forall|i: int|
            0 <= i < x.value@.len() ==> reference_outcome(x.value@[i]@) == Ok::<(Seq<char>, Seq<char>, DateTime), ReferenceError>(#[trigger] rs@[i]),
        None => r is None,
    }
}

pub open spec fn references_encoded(r: Option<References>, g: Option<Group>) -> bool {
    match r {
        Some(rs) => g matches Some(x) && x.value@.len() == rs@.len() && forall|i: int|
            0 <= i < rs@.len() ==> (#[trigger] x.value@[i])@ == reference_text(rs@[i]),
        None => g is None,
    }
}

pub open spec fn references_wf(r: Option<References>) -> bool {
    r matches Some(rs) ==> rs.wf()
}

fn items_from_group(g: Option<Group>) -> (r: Result<Option<Items>, InvalidItemError>)
    ensures
        items_ok(g) <==> r is Ok,
        r matches Ok(x) ==> items_decoded(g, x),
{
    match g {
        Some(x) => match Items::from_strings(x.value) {
            Ok(it) => Ok(Some(it)),
            Err(e) => Err(e),
        },
        None => Ok(None),
    }
}

fn group_from_items(it: Option<Items>) -> (r: Option<Group>)
    ensures
        items_encoded(it, r),
{
    match it {
        Some(items) => {
            let ghost v = items@;
            let all = items.into_inner();
            let n = all.len();
            let ghost orig = all@;
            let mut rest = reversed(all);
            let mut out: Vec<String> = Vec::new();
            let mut i: usize = 0;
            while i < n
                invariant
                    n == orig.len(),
                    orig.map_values(|x: Item| x@) == v,
                    i <= n,
                    rest@.len() == n - i,
                    forall|j: int| 0 <= j < n - i ==> #[trigger] rest@[j] == orig[n - 1 - j],
                    out@.len() == i,
                    forall|j: int| 0 <= j < i ==> (#[trigger] out@[j])@ == orig[j]@,
                decreases n - i,
            {
                assert(rest@[n - i - 1] == orig[i as int]);
                let x = rest.pop().unwrap();
                out.push(x.into_inner());
                i = i + 1;
            }
            assert(out@.map_values(|s: String| s@) =~= v);
            Some(Group { value: out })
        },
        None => None,
    }
}

fn references_from_group(g: Option<Group>) -> (r: Result<Option<References>, ReferenceError>)
    ensures
        references_ok(g) <==> r is Ok,
        r matches Ok(x) ==> references_decoded(g, x) && references_wf(x),
        r matches Err(e) ==> first_reference_error(g->0.value@) == Some(e),
{
    match g {
        Some(x) => {
            let mut out: Vec<Reference> = Vec::new();
            let mut i: usize = 0;
            while i < x.value.len()
                invariant
                    g == Some(x),
                    i <= x.value@.len(),
                    out@.len() == i,
                    forall|j: int| 0 <= j < i ==> (#[trigger] reference_outcome(x.value@[j]@)) is Ok,
                    forall|j: int| 0 <= j < i ==> reference_outcome(x.value@[j]@) == Ok::<(Seq<char>, Seq<char>, DateTime), ReferenceError>((#[trigger] out@[j])@) && out@[j].wf(),
                decreases x.value.len() - i,
            {
                match Reference::parse_chars(&chars_of(x.value[i].as_str())) {
                    Ok(rf) => out.push(rf),
                    Err(e) => {
                        let ghost v = x.value@;
                        assert(reference_outcome(v[i as int]@) is Err);
                        proof {
                            let k = choose|k: int|
                                0 <= k < v.len() && (#[trigger] reference_outcome(v[k]@)) is Err && forall|j: int|
                                    0 <= j < k ==> (#[trigger] reference_outcome(v[j]@)) is Ok;
                            assert(reference_outcome(v[k]@) is Err);
                            if k < i {
                                assert(reference_outcome(v[k]@) is Ok);
                            }
                            if k > i {
                                assert(reference_outcome(v[i as int]@) is Ok);
                            }
                        }
                        return Err(e);
                    },
                }
                i = i + 1;
            }
            let rs = References::new(out);
            assert forall|j: int| 0 <= j < x.value@.len() implies reference_outcome(x.value@[j]@) == Ok::<(Seq<char>, Seq<char>, DateTime), ReferenceError>(#[trigger] rs@[j]) by {
                assert(rs@[j] == out@[j]@);
            }
            Ok(Some(rs))
        },
        None => Ok(None),
    }
}

fn group_from_references(r: Option<References>) -> (g: Option<Group>)
    requires
        references_wf(r),
    ensures
        references_encoded(r, g),
{
    match r {
        Some(rs) => {
            let ghost v = rs@;
            let all = rs.as_slice();
            let mut out: Vec<String> = Vec::new();
            let mut i: usize = 0;
            while i < all.len()
                invariant
                    all@.map_values(|x: Reference| x@) == v,
                    forall|j: int| 0 <= j < all@.len() ==> (#[trigger] all@[j]).wf(),
                    i <= all@.len(),
                    out@.len() == i,
                    forall|j: int| 0 <= j < i ==> (#[trigger] out@[j])@ == reference_text(v[j]),
                decreases all.len() - i,
            {
                let mut t = String::new();
                all[i].push_text(&mut t);
                assert(t@ =~= reference_text(v[i as int]));
                out.push(t);
                i = i + 1;
            }
            Some(Group { value: out })
        },
        None => None,
    }
}

fn infos_to_v1dot0(v: Vec<protobuf::Info>) -> (r: Result<Vec<v1dot0::Info>, AlertConversionError>)
    ensures
        (forall|i: int| 0 <= i < v@.len() ==> info_fits_v1dot0(#[trigger] v@[i])) <==> r is Ok,
        r matches Ok(out) ==> out@.len() == v@.len() && forall|i: int| 0 <= i < v@.len() ==> info_decoded_v1dot0(v@[i], #[trigger] out@[i]),
        r matches Err(e) ==> e matches AlertConversionError::Info(_),
{
    let ghost orig = v@;
    let n = v.len();
    let mut rest = reversed(v);
    let mut out: Vec<v1dot0::Info> = Vec::new();
    let mut i: usize = 0;
    while i < n
        invariant
            n == orig.len(),
            orig == v@,
            i <= n,
            rest@.len() == n - i,
            forall|j: int| 0 <= j < n - i ==> #[trigger] rest@[j] == orig[n - 1 - j],
            out@.len() == i,
            forall|j: int| 0 <= j < i ==> info_fits_v1dot0(#[trigger] orig[j]),
            forall|j: int| 0 <= j < i ==> info_decoded_v1dot0(orig[j], #[trigger] out@[j]),
        decreases n - i,
    {
        assert(rest@[n - i - 1] == orig[i as int]);
        let x = rest.pop().unwrap();
        match v1dot0::Info::try_from_protobuf(x) {
            Ok(d) => out.push(d),
            Err(e) => {
                return Err(AlertConversionError::Info(e));
            },
        }
        i = i + 1;
    }
    Ok(out)
}

fn infos_from_v1dot0(v: Vec<v1dot0::Info>) -> (r: Vec<protobuf::Info>)
    requires
        forall|i: int| 0 <= i < v@.len() ==> info_times_wf_v1dot0(#[trigger] v@[i]),
    ensures
        r@.len() == v@.len(),
        forall|i: int| 0 <= i < v@.len() ==> info_encoded_v1dot0(v@[i], #[trigger] r@[i]),
{
    let ghost orig = v@;
    let n = v.len();
    let mut rest = reversed(v);
    let mut out: Vec<protobuf::Info> = Vec::new();
    let mut i: usize = 0;
    while i < n
        invariant
            n == orig.len(),
            orig == v@,
            forall|j: int| 0 <= j < n ==> info_times_wf_v1dot0(#[trigger] orig[j]),
            i <= n,
            rest@.len() == n - i,
            forall|j: int| 0 <= j < n - i ==> #[trigger] rest@[j] == orig[n - 1 - j],
            out@.len() == i,
            forall|j: int| 0 <= j < i ==> info_encoded_v1dot0(orig[j], #[trigger] out@[j]),
        decreases n - i,
    {
        assert(rest@[n - i - 1] == orig[i as int]);
        let x = rest.pop().unwrap();
        assert(info_times_wf_v1dot0(orig[i as int]));
        out.push(protobuf::Info::from_v1dot0(x));
        i = i + 1;
    }
    out
}

pub open spec fn info_times_wf_v1dot0(i: v1dot0::Info) -> bool {
    times_wf(i.effective, i.onset, i.expires)
}

/// Whether a binary alert converts to v1dot0.
pub open spec fn alert_fits_v1dot0(v: Alert) -> bool {
    &&& id_outcome(v.identifier@) is Ok
    &&& id_outcome(v.sender@) is Ok
    &&& datetime_of(v.sent@) is Some
    &&& (status_of_code(v.status) matches Some(s) && spec_status_to_v1dot0(s) is Ok)
    &&& msg_type_of_code(v.msg_type) is Some
    &&& (v.scope matches Some(c) && scope_of_code(c) is Some)
    &&& items_ok(v.addresses)
    &&& references_ok(v.references)
    &&& items_ok(v.incidents)
    &&& forall|i: int| 0 <= i < v.info@.len() ==> info_fits_v1dot0(#[trigger] v.info@[i])
}

pub open spec fn alert_decoded_v1dot0(v: Alert, r: v1dot0::Alert) -> bool {
    &&& r.identifier@ == v.identifier@ && r.identifier.wf()
    &&& r.sender@ == v.sender@ && r.sender.wf()
    &&& r.password == v.password
    &&& Some(r.sent) == datetime_of(v.sent@)
    &&& spec_status_to_v1dot0(status_of_code(v.status)->0) == Ok::<v1dot0::Status, Status>(r.status)
    &&& r.message_type == spec_msg_type_to_v1dot0(msg_type_of_code(v.msg_type)->0)
    &&& r.source == v.source
    &&& r.scope == spec_scope_to_v1dot0(scope_of_code(v.scope->0)->0)
    &&& r.restriction == v.restriction
    &&& items_decoded(v.addresses, r.addresses)
    &&& r.codes == v.code
    &&& r.note == v.note
    &&& references_decoded(v.references, r.references)
    &&& items_decoded(v.incidents, r.incidents)
    &&& r.info@.len() == v.info@.len()
    &&& forall|i: int| 0 <= i < v.info@.len() ==> info_decoded_v1dot0(v.info@[i], #[trigger] r.info@[i])
}

/// Whether a v1dot0 alert can be written: its timestamps and references are valid.
pub open spec fn alert_wf_v1dot0(a: v1dot0::Alert) -> bool {
    &&& a.sent.wf()
    &&& references_wf(a.references)
    &&& forall|i: int| 0 <= i < a.info@.len() ==> info_times_wf_v1dot0(#[trigger] a.info@[i])
}

pub open spec fn alert_encoded_v1dot0(r: v1dot0::Alert, v: Alert) -> bool {
    &&& v.xmlns@ == v1dot0::XML_NAMESPACE@
    &&& v.identifier@ == r.identifier@
    &&& v.sender@ == r.sender@
    &&& v.password == r.password
    &&& v.sent@ == crate::datetime::datetime_text(r.sent)
    &&& v.status == status_code(spec_status_from_v1dot0(r.status))
    &&& v.msg_type == msg_type_code(spec_msg_type_from_v1dot0(r.message_type))
    &&& v.source == r.source
    &&& v.scope == Some(scope_code(spec_scope_from_v1dot0(r.scope)))
    &&& v.restriction == r.restriction
    &&& items_encoded(r.addresses, v.addresses)
    &&& v.code == r.codes
    &&& v.note == r.note
    &&& references_encoded(r.references, v.references)
    &&& items_encoded(r.incidents, v.incidents)
    &&& v.info@.len() == r.info@.len()
    &&& forall|i: int| 0 <= i < r.info@.len() ==> info_encoded_v1dot0(r.info@[i], #[trigger] v.info@[i])
}

impl v1dot0::Alert {
    /// Convert a binary alert to v1dot0, whatever its namespace; fields are checked in order
    /// and the first failure is returned.
    #[verifier::rlimit(80)]
    pub fn try_from_protobuf(value: Alert) -> (r: Result<v1dot0::Alert, AlertConversionError>)
        ensures
            alert_fits_v1dot0(value) <==> r is Ok,
            r matches Ok(x) ==> alert_decoded_v1dot0(value, x),
            r matches Err(e) ==> alert_failure(value, true, forall|i: int| 0 <= i < value.info@.len() ==> info_fits_v1dot0(#[trigger] value.info@[i])) == Some(alert_error_kind(e)),
            r matches Err(e) ==> match alert_error(value, true) {
                Some(f) => e == f,
                None => e matches AlertConversionError::Info(_),
            },
    {
        let identifier = match Id::new(value.identifier) {
            Ok(x) => x,
            Err(e) => {
                return Err(AlertConversionError::Identifier(e));
            },
        };
        let sender = match Id::new(value.sender) {
            Ok(x) => x,
            Err(e) => {
                return Err(AlertConversionError::Sender(e));
            },
        };
        let sent = match DateTime::parse(value.sent.as_str()) {
            Ok(x) => x,
            Err(e) => {
                return Err(AlertConversionError::Sent(e));
            },
        };
        let status = match Status::from_i32(value.status) {
            None => {
                return Err(AlertConversionError::Status(value.status));
            },
            Some(s) => match status_to_v1dot0(s) {
                Ok(x) => x,
                Err(u) => {
                    return Err(AlertConversionError::UnrepresentableStatus(u));
                },
            },
        };
        let message_type = match MsgType::from_i32(value.msg_type) {
            Some(m) => msg_type_to_v1dot0(m),
            None => {
                return Err(AlertConversionError::MessageType(value.msg_type));
            },
        };
        let scope = match value.scope {
            None => {
                return Err(AlertConversionError::ScopeMissing);
            },
            Some(c) => match Scope::from_i32(c) {
                Some(s) => scope_to_v1dot0(s),
                None => {
                    return Err(AlertConversionError::Scope(c));
                },
            },
        };
        let addresses = match items_from_group(value.addresses) {
            Ok(x) => x,
            Err(e) => {
                return Err(AlertConversionError::Addresses(e));
            },
        };
        let references = match references_from_group(value.references) {
            Ok(x) => x,
            Err(e) => {
                return Err(AlertConversionError::References(e));
            },
        };
        let incidents = match items_from_group(value.incidents) {
            Ok(x) => x,
            Err(e) => {
                return Err(AlertConversionError::Incidents(e));
            },
        };
        let info = infos_to_v1dot0(value.info)?;
        Ok(v1dot0::Alert {
            identifier,
            sender,
            password: value.password,
            sent,
            status,
            message_type,
            source: value.source,
            scope,
            restriction: value.restriction,
            addresses,
            codes: value.code,
            note: value.note,
            references,
            incidents,
            info,
        })
    }
}

impl Alert {
    /// The binary form of a v1dot0 alert.
    pub fn from_v1dot0(value: v1dot0::Alert) -> (r: Alert)
        requires
            alert_wf_v1dot0(value),
        ensures
            alert_encoded_v1dot0(value, r),
    {
        let sent = value.sent.to_string();
        Alert {
            xmlns: v1dot0::XML_NAMESPACE.to_owned(),
            identifier: value.identifier.into_inner(),
            sender: value.sender.into_inner(),
            password: value.password,
            sent,
            status: status_from_v1dot0(value.status).code(),
            msg_type: msg_type_from_v1dot0(value.message_type).code(),
            source: value.source,
            scope: Some(scope_from_v1dot0(value.scope).code()),
            restriction: value.restriction,
            addresses: group_from_items(value.addresses),
            code: value.codes,
            note: value.note,
            references: group_from_references(value.references),
            incidents: group_from_items(value.incidents),
            info: infos_from_v1dot0(value.info),
        }
    }
}

fn infos_to_v1dot1(v: Vec<protobuf::Info>) -> (r: Result<Vec<v1dot1::Info>, AlertConversionError>)
    ensures
        (forall|i: int| 0 <= i < v@.len() ==> info_fits_v1dot1(#[trigger] v@[i])) <==> r is Ok,
        r matches Ok(out) ==> out@.len() == v@.len() && forall|i: int| 0 <= i < v@.len() ==> info_decoded_v1dot1(v@[i], #[trigger] out@[i]),
        r matches Err(e) ==> e matches AlertConversionError::Info(_),
{
    let ghost orig = v@;
    let n = v.len();
    let mut rest = reversed(v);
    let mut out: Vec<v1dot1::Info> = Vec::new();
    let mut i: usize = 0;
    while i < n
        invariant
            n == orig.len(),
            orig == v@,
            i <= n,
            rest@.len() == n - i,
            forall|j: int| 0 <= j < n - i ==> #[trigger] rest@[j] == orig[n - 1 - j],
            out@.len() == i,
            forall|j: int| 0 <= j < i ==> info_fits_v1dot1(#[trigger] orig[j]),
            forall|j: int| 0 <= j < i ==> info_decoded_v1dot1(orig[j], #[trigger] out@[j]),
        decreases n - i,
    {
        assert(rest@[n - i - 1] == orig[i as int]);
        let x = rest.pop().unwrap();
        match v1dot1::Info::try_from_protobuf(x) {
            Ok(d) => out.push(d),
            Err(e) => {
                return Err(AlertConversionError::Info(e));
            },
        }
        i = i + 1;
    }
    Ok(out)
}

fn infos_from_v1dot1(v: Vec<v1dot1::Info>) -> (r: Vec<protobuf::Info>)
    requires
        forall|i: int| 0 <= i < v@.len() ==> info_times_wf_v1dot1(#[trigger] v@[i]),
    ensures
        r@.len() == v@.len(),
        forall|i: int| 0 <= i < v@.len() ==> info_encoded_v1dot1(v@[i], #[trigger] r@[i]),
{
    let ghost orig = v@;
    let n = v.len();
    let mut rest = reversed(v);
    let mut out: Vec<protobuf::Info> = Vec::new();
    let mut i: usize = 0;
    while i < n
        invariant
            n == orig.len(),
            orig == v@,
            forall|j: int| 0 <= j < n ==> info_times_wf_v1dot1(#[trigger] orig[j]),
            i <= n,
            rest@.len() == n - i,
            forall|j: int| 0 <= j < n - i ==> #[trigger] rest@[j] == orig[n - 1 - j],
            out@.len() == i,
            forall|j: int| 0 <= j < i ==> info_encoded_v1dot1(orig[j], #[trigger] out@[j]),
        decreases n - i,
    {
        assert(rest@[n - i - 1] == orig[i as int]);
        let x = rest.pop().unwrap();
        assert(info_times_wf_v1dot1(orig[i as int]));
        out.push(protobuf::Info::from_v1dot1(x));
        i = i + 1;
    }
    out
}

pub open spec fn info_times_wf_v1dot1(i: v1dot1::Info) -> bool {
    times_wf(i.effective, i.onset, i.expires)
}

/// Whether a binary alert converts to v1dot1.
pub open spec fn alert_fits_v1dot1(v: Alert) -> bool {
    &&& id_outcome(v.identifier@) is Ok
    &&& id_outcome(v.sender@) is Ok
    &&& datetime_of(v.sent@) is Some
    &&& (status_of_code(v.status) is Some)
    &&& msg_type_of_code(v.msg_type) is Some
    &&& (v.scope matches Some(c) && scope_of_code(c) is Some)
    &&& items_ok(v.addresses)
    &&& references_ok(v.references)
    &&& items_ok(v.incidents)
    &&& forall|i: int| 0 <= i < v.info@.len() ==> info_fits_v1dot1(#[trigger] v.info@[i])
}

pub open spec fn alert_decoded_v1dot1(v: Alert, r: v1dot1::Alert) -> bool {
    &&& r.identifier@ == v.identifier@ && r.identifier.wf()
    &&& r.sender@ == v.sender@ && r.sender.wf()
    &&& Some(r.sent) == datetime_of(v.sent@)
    &&& r.status == spec_status_to_v1dot1(status_of_code(v.status)->0)
    &&& r.message_type == spec_msg_type_to_v1dot0(msg_type_of_code(v.msg_type)->0)
    &&& r.source == v.source
    &&& r.scope == spec_scope_to_v1dot0(scope_of_code(v.scope->0)->0)
    &&& r.restriction == v.restriction
    &&& items_decoded(v.addresses, r.addresses)
    &&& r.codes == v.code
    &&& r.note == v.note
    &&& references_decoded(v.references, r.references)
    &&& items_decoded(v.incidents, r.incidents)
    &&& r.info@.len() == v.info@.len()
    &&& forall|i: int| 0 <= i < v.info@.len() ==> info_decoded_v1dot1(v.info@[i], #[trigger] r.info@[i])
}

/// Whether a v1dot1 alert can be written: its timestamps and references are valid.
pub open spec fn alert_wf_v1dot1(a: v1dot1::Alert) -> bool {
    &&& a.sent.wf()
    &&& references_wf(a.references)
    &&& forall|i: int| 0 <= i < a.info@.len() ==> info_times_wf_v1dot1(#[trigger] a.info@[i])
}

pub open spec fn alert_encoded_v1dot1(r: v1dot1::Alert, v: Alert) -> bool {
    &&& v.xmlns@ == v1dot1::XML_NAMESPACE@
    &&& v.identifier@ == r.identifier@
    &&& v.sender@ == r.sender@
    &&& v.password is None
    &&& v.sent@ == crate::datetime::datetime_text(r.sent)
    &&& v.status == status_code(spec_status_from_v1dot1(r.status))
    &&& v.msg_type == msg_type_code(spec_msg_type_from_v1dot0(r.message_type))
    &&& v.source == r.source
    &&& v.scope == Some(scope_code(spec_scope_from_v1dot0(r.scope)))
    &&& v.restriction == r.restriction
    &&& items_encoded(r.addresses, v.addresses)
    &&& v.code == r.codes
    &&& v.note == r.note
    &&& references_encoded(r.references, v.references)
    &&& items_encoded(r.incidents, v.incidents)
    &&& v.info@.len() == r.info@.len()
    &&& forall|i: int| 0 <= i < r.info@.len() ==> info_encoded_v1dot1(r.info@[i], #[trigger] v.info@[i])
}

impl v1dot1::Alert {
    /// Convert a binary alert to v1dot1, whatever its namespace; fields are checked in order
    /// and the first failure is returned.
    #[verifier::rlimit(80)]
    pub fn try_from_protobuf(value: Alert) -> (r: Result<v1dot1::Alert, AlertConversionError>)
        ensures
            alert_fits_v1dot1(value) <==> r is Ok,
            r matches Ok(x) ==> alert_decoded_v1dot1(value, x),
            r matches Err(e) ==> alert_failure(value, false, forall|i: int| 0 <= i < value.info@.len() ==> info_fits_v1dot1(#[trigger] value.info@[i])) == Some(alert_error_kind(e)),
            r matches Err(e) ==> match alert_error(value, false) {
                Some(f) => e == f,
                None => e matches AlertConversionError::Info(_),
            },
    {
        let identifier = match Id::new(value.identifier) {
            Ok(x) => x,
            Err(e) => {
                return Err(AlertConversionError::Identifier(e));
            },
        };
        let sender = match Id::new(value.sender) {
            Ok(x) => x,
            Err(e) => {
                return Err(AlertConversionError::Sender(e));
            },
        };
        let sent = match DateTime::parse(value.sent.as_str()) {
            Ok(x) => x,
            Err(e) => {
                return Err(AlertConversionError::Sent(e));
            },
        };
        let status = match Status::from_i32(value.status) {
            None => {
                return Err(AlertConversionError::Status(value.status));
            },
            Some(s) => status_to_v1dot1(s),
        };
        let message_type = match MsgType::from_i32(value.msg_type) {
            Some(m) => msg_type_to_v1dot0(m),
            None => {
                return Err(AlertConversionError::MessageType(value.msg_type));
            },
        };
        let scope = match value.scope {
            None => {
                return Err(AlertConversionError::ScopeMissing);
            },
            Some(c) => match Scope::from_i32(c) {
                Some(s) => scope_to_v1dot0(s),
                None => {
                    return Err(AlertConversionError::Scope(c));
                },
            },
        };
        let addresses = match items_from_group(value.addresses) {
            Ok(x) => x,
            Err(e) => {
                return Err(AlertConversionError::Addresses(e));
            },
        };
        let references = match references_from_group(value.references) {
            Ok(x) => x,
            Err(e) => {
                return Err(AlertConversionError::References(e));
            },
        };
        let incidents = match items_from_group(value.incidents) {
            Ok(x) => x,
            Err(e) => {
                return Err(AlertConversionError::Incidents(e));
            },
        };
        let info = infos_to_v1dot1(value.info)?;
        Ok(v1dot1::Alert {
            identifier,
            sender,
            sent,
            status,
            message_type,
            source: value.source,
            scope,
            restriction: value.restriction,
            addresses,
            codes: value.code,
            note: value.note,
            references,
            incidents,
            info,
        })
    }
}

impl Alert {
    /// The binary form of a v1dot1 alert.
    pub fn from_v1dot1(value: v1dot1::Alert) -> (r: Alert)
        requires
            alert_wf_v1dot1(value),
        ensures
            alert_encoded_v1dot1(value, r),
    {
        let sent = value.sent.to_string();
        Alert {
            xmlns: v1dot1::XML_NAMESPACE.to_owned(),
            identifier: value.identifier.into_inner(),
            sender: value.sender.into_inner(),
            password: None,
            sent,
            status: status_from_v1dot1(value.status).code(),
            msg_type: msg_type_from_v1dot0(value.message_type).code(),
            source: value.source,
            scope: Some(scope_from_v1dot0(value.scope).code()),
            restriction: value.restriction,
            addresses: group_from_items(value.addresses),
            code: value.codes,
            note: value.note,
            references: group_from_references(value.references),
            incidents: group_from_items(value.incidents),
            info: infos_from_v1dot1(value.info),
        }
    }
}

fn infos_to_v1dot2(v: Vec<protobuf::Info>) -> (r: Result<Vec<v1dot2::Info>, AlertConversionError>)
    ensures
        (forall|i: int| 0 <= i < v@.len() ==> info_fits_v1dot2(#[trigger] v@[i])) <==> r is Ok,
        r matches Ok(out) ==> out@.len() == v@.len() && forall|i: int| 0 <= i < v@.len() ==> info_decoded_v1dot2(v@[i], #[trigger] out@[i]),
        r matches Err(e) ==> e matches AlertConversionError::Info(_),
{
    let ghost orig = v@;
    let n = v.len();
    let mut rest = reversed(v);
    let mut out: Vec<v1dot2::Info> = Vec::new();
    let mut i: usize = 0;
    while i < n
        invariant
            n == orig.len(),
            orig == v@,
            i <= n,
            rest@.len() == n - i,
            forall|j: int| 0 <= j < n - i ==> #[trigger] rest@[j] == orig[n - 1 - j],
            out@.len() == i,
            forall|j: int| 0 <= j < i ==> info_fits_v1dot2(#[trigger] orig[j]),
            forall|j: int| 0 <= j < i ==> info_decoded_v1dot2(orig[j], #[trigger] out@[j]),
        decreases n - i,
    {
        assert(rest@[n - i - 1] == orig[i as int]);
        let x = rest.pop().unwrap();
        match v1dot2::Info::try_from_protobuf(x) {
            Ok(d) => out.push(d),
            Err(e) => {
                return Err(AlertConversionError::Info(e));
            },
        }
        i = i + 1;
    }
    Ok(out)
}

fn infos_from_v1dot2(v: Vec<v1dot2::Info>) -> (r: Vec<protobuf::Info>)
    requires
        forall|i: int| 0 <= i < v@.len() ==> info_times_wf_v1dot2(#[trigger] v@[i]),
    ensures
        r@.len() == v@.len(),
        forall|i: int| 0 <= i < v@.len() ==> info_encoded_v1dot2(v@[i], #[trigger] r@[i]),
{
    let ghost orig = v@;
    let n = v.len();
    let mut rest = reversed(v);
    let mut out: Vec<protobuf::Info> = Vec::new();
    let mut i: usize = 0;
    while i < n
        invariant
            n == orig.len(),
            orig == v@,
            forall|j: int| 0 <= j < n ==> info_times_wf_v1dot2(#[trigger] orig[j]),
            i <= n,
            rest@.len() == n - i,
            forall|j: int| 0 <= j < n - i ==> #[trigger] rest@[j] == orig[n - 1 - j],
            out@.len() == i,
            forall|j: int| 0 <= j < i ==> info_encoded_v1dot2(orig[j], #[trigger] out@[j]),
        decreases n - i,
    {
        assert(rest@[n - i - 1] == orig[i as int]);
        let x = rest.pop().unwrap();
        assert(info_times_wf_v1dot2(orig[i as int]));
        out.push(protobuf::Info::from_v1dot2(x));
        i = i + 1;
    }
    out
}

pub open spec fn info_times_wf_v1dot2(i: v1dot2::Info) -> bool {
    times_wf(i.effective, i.onset, i.expires)
}

/// Whether a binary alert converts to v1dot2.
pub open spec fn alert_fits_v1dot2(v: Alert) -> bool {
    &&& id_outcome(v.identifier@) is Ok
    &&& id_outcome(v.sender@) is Ok
    &&& datetime_of(v.sent@) is Some
    &&& (status_of_code(v.status) is Some)
    &&& msg_type_of_code(v.msg_type) is Some
    &&& (v.scope matches Some(c) && scope_of_code(c) is Some)
    &&& items_ok(v.addresses)
    &&& references_ok(v.references)
    &&& items_ok(v.incidents)
    &&& forall|i: int| 0 <= i < v.info@.len() ==> info_fits_v1dot2(#[trigger] v.info@[i])
}

pub open spec fn alert_decoded_v1dot2(v: Alert, r: v1dot2::Alert) -> bool {
    &&& r.identifier@ == v.identifier@ && r.identifier.wf()
    &&& r.sender@ == v.sender@ && r.sender.wf()
    &&& Some(r.sent) == datetime_of(v.sent@)
    &&& r.status == spec_status_to_v1dot1(status_of_code(v.status)->0)
    &&& r.message_type == spec_msg_type_to_v1dot0(msg_type_of_code(v.msg_type)->0)
    &&& r.source == v.source
    &&& r.scope == spec_scope_to_v1dot0(scope_of_code(v.scope->0)->0)
    &&& r.restriction == v.restriction
    &&& items_decoded(v.addresses, r.addresses)
    &&& r.codes == v.code
    &&& r.note == v.note
    &&& references_decoded(v.references, r.references)
    &&& items_decoded(v.incidents, r.incidents)
    &&& r.info@.len() == v.info@.len()
    &&& forall|i: int| 0 <= i < v.info@.len() ==> info_decoded_v1dot2(v.info@[i], #[trigger] r.info@[i])
}

/// Whether a v1dot2 alert can be written: its timestamps and references are valid.
pub open spec fn alert_wf_v1dot2(a: v1dot2::Alert) -> bool {
    &&& a.sent.wf()
    &&& references_wf(a.references)
    &&& forall|i: int| 0 <= i < a.info@.len() ==> info_times_wf_v1dot2(#[trigger] a.info@[i])
}

pub open spec fn alert_encoded_v1dot2(r: v1dot2::Alert, v: Alert) -> bool {
    &&& v.xmlns@ == v1dot2::XML_NAMESPACE@
    &&& v.identifier@ == r.identifier@
    &&& v.sender@ == r.sender@
    &&& v.password is None
    &&& v.sent@ == crate::datetime::datetime_text(r.sent)
    &&& v.status == status_code(spec_status_from_v1dot1(r.status))
    &&& v.msg_type == msg_type_code(spec_msg_type_from_v1dot0(r.message_type))
    &&& v.source == r.source
    &&& v.scope == Some(scope_code(spec_scope_from_v1dot0(r.scope)))
    &&& v.restriction == r.restriction
    &&& items_encoded(r.addresses, v.addresses)
    &&& v.code == r.codes
    &&& v.note == r.note
    &&& references_encoded(r.references, v.references)
    &&& items_encoded(r.incidents, v.incidents)
    &&& v.info@.len() == r.info@.len()
    &&& forall|i: int| 0 <= i < r.info@.len() ==> info_encoded_v1dot2(r.info@[i], #[trigger] v.info@[i])
}

impl v1dot2::Alert {
    /// Convert a binary alert to v1dot2, whatever its namespace; fields are checked in order
    /// and the first failure is returned.
    #[verifier::rlimit(80)]
    pub fn try_from_protobuf(value: Alert) -> (r: Result<v1dot2::Alert, AlertConversionError>)
        ensures
            alert_fits_v1dot2(value) <==> r is Ok,
            r matches Ok(x) ==> alert_decoded_v1dot2(value, x),
            r matches Err(e) ==> alert_failure(value, false, forall|i: int| 0 <= i < value.info@.len() ==> info_fits_v1dot2(#[trigger] value.info@[i])) == Some(alert_error_kind(e)),
            r matches Err(e) ==> match alert_error(value, false) {
                Some(f) => e == f,
                None => e matches AlertConversionError::Info(_),
            },
    {
        let identifier = match Id::new(value.identifier) {
            Ok(x) => x,
            Err(e) => {
                return Err(AlertConversionError::Identifier(e));
            },
        };
        let sender = match Id::new(value.sender) {
            Ok(x) => x,
            Err(e) => {
                return Err(AlertConversionError::Sender(e));
            },
        };
        let sent = match DateTime::parse(value.sent.as_str()) {
            Ok(x) => x,
            Err(e) => {
                return Err(AlertConversionError::Sent(e));
            },
        };
        let status = match Status::from_i32(value.status) {
            None => {
                return Err(AlertConversionError::Status(value.status));
            },
            Some(s) => status_to_v1dot1(s),
        };
        let message_type = match MsgType::from_i32(value.msg_type) {
            Some(m) => msg_type_to_v1dot0(m),
            None => {
                return Err(AlertConversionError::MessageType(value.msg_type));
            },
        };
        let scope = match value.scope {
            None => {
                return Err(AlertConversionError::ScopeMissing);
            },
            Some(c) => match Scope::from_i32(c) {
                Some(s) => scope_to_v1dot0(s),
                None => {
                    return Err(AlertConversionError::Scope(c));
                },
            },
        };
        let addresses = match items_from_group(value.addresses) {
            Ok(x) => x,
            Err(e) => {
                return Err(AlertConversionError::Addresses(e));
            },
        };
        let references = match references_from_group(value.references) {
            Ok(x) => x,
            Err(e) => {
                return Err(AlertConversionError::References(e));
            },
        };
        let incidents = match items_from_group(value.incidents) {
            Ok(x) => x,
            Err(e) => {
                return Err(AlertConversionError::Incidents(e));
            },
        };
        let info = infos_to_v1dot2(value.info)?;
        Ok(v1dot2::Alert {
            identifier,
            sender,
            sent,
            status,
            message_type,
            source: value.source,
            scope,
            restriction: value.restriction,
            addresses,
            codes: value.code,
            note: value.note,
            references,
            incidents,
            info,
        })
    }
}

impl Alert {
    /// The binary form of a v1dot2 alert.
    pub fn from_v1dot2(value: v1dot2::Alert) -> (r: Alert)
        requires
            alert_wf_v1dot2(value),
        ensures
            alert_encoded_v1dot2(value, r),
    {
        let sent = value.sent.to_string();
        Alert {
            xmlns: v1dot2::XML_NAMESPACE.to_owned(),
            identifier: value.identifier.into_inner(),
            sender: value.sender.into_inner(),
            password: None,
            sent,
            status: status_from_v1dot1(value.status).code(),
            msg_type: msg_type_from_v1dot0(value.message_type).code(),
            source: value.source,
            scope: Some(scope_from_v1dot0(value.scope).code()),
            restriction: value.restriction,
            addresses: group_from_items(value.addresses),
            code: value.codes,
            note: value.note,
            references: group_from_references(value.references),
            incidents: group_from_items(value.incidents),
            info: infos_from_v1dot2(value.info),
        }
    }
}

/// What a binary alert's namespace selects: 0, 1 or 2 for the three dialects, oldest first.
pub open spec fn dialect_of(xmlns: Seq<char>) -> Option<int> {
    if xmlns == v1dot0::XML_NAMESPACE@ {
        Some(0)
    } else if xmlns == v1dot1::XML_NAMESPACE@ {
        Some(1)
    } else if xmlns == v1dot2::XML_NAMESPACE@ {
        Some(2)
    } else {
        None
    }
}

/// Whether an alert of any dialect can be written.
pub open spec fn alert_wf(a: crate::Alert) -> bool {
    match a {
        crate::Alert::V1dot0(x) => alert_wf_v1dot0(x),
        crate::Alert::V1dot1(x) => alert_wf_v1dot1(x),
        crate::Alert::V1dot2(x) => alert_wf_v1dot2(x),
    }
}

impl crate::Alert {
    /// Convert a binary alert to the dialect that its namespace names.
    pub fn try_from_protobuf(value: Alert) -> (r: Result<crate::Alert, AlertConversionError>)
        ensures
            dialect_of(value.xmlns@) is None <==> r matches Err(AlertConversionError::Xmlns(_)),
            dialect_of(value.xmlns@) is None ==> r == Err::<crate::Alert, AlertConversionError>(AlertConversionError::Xmlns(value.xmlns)),
            dialect_of(value.xmlns@) == Some(0int) ==> (alert_fits_v1dot0(value) <==> r is Ok)
                && (r matches Ok(a) ==> a matches crate::Alert::V1dot0(x) && alert_decoded_v1dot0(value, x)),
            dialect_of(value.xmlns@) == Some(1int) ==> (alert_fits_v1dot1(value) <==> r is Ok)
                && (r matches Ok(a) ==> a matches crate::Alert::V1dot1(x) && alert_decoded_v1dot1(value, x)),
            dialect_of(value.xmlns@) == Some(2int) ==> (alert_fits_v1dot2(value) <==> r is Ok)
                && (r matches Ok(a) ==> a matches crate::Alert::V1dot2(x) && alert_decoded_v1dot2(value, x)),
    {
        if str_eq(value.xmlns.as_str(), v1dot0::XML_NAMESPACE) {
            match v1dot0::Alert::try_from_protobuf(value) {
                Ok(a) => Ok(crate::Alert::V1dot0(a)),
                Err(e) => Err(e),
            }
        } else if str_eq(value.xmlns.as_str(), v1dot1::XML_NAMESPACE) {
            match v1dot1::Alert::try_from_protobuf(value) {
                Ok(a) => Ok(crate::Alert::V1dot1(a)),
                Err(e) => Err(e),
            }
        } else if str_eq(value.xmlns.as_str(), v1dot2::XML_NAMESPACE) {
            match v1dot2::Alert::try_from_protobuf(value) {
                Ok(a) => Ok(crate::Alert::V1dot2(a)),
                Err(e) => Err(e),
            }
        } else {
            Err(AlertConversionError::Xmlns(value.xmlns))
        }
    }
}

impl Alert {
    /// The binary form of an alert of any dialect, with the dialect's namespace.
    pub fn from_alert(alert: crate::Alert) -> (r: Alert)
        requires
            alert_wf(alert),
        ensures
            match alert {
                crate::Alert::V1dot0(x) => alert_encoded_v1dot0(x, r),
                crate::Alert::V1dot1(x) => alert_encoded_v1dot1(x, r),
                crate::Alert::V1dot2(x) => alert_encoded_v1dot2(x, r),
            },
    {
        match alert {
            crate::Alert::V1dot0(x) => Alert::from_v1dot0(x),
            crate::Alert::V1dot1(x) => Alert::from_v1dot1(x),
            crate::Alert::V1dot2(x) => Alert::from_v1dot2(x),
        }
    }
}

} // verus!
