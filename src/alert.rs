//! An alert of any dialect, and its upgrade to the newest.

use vstd::prelude::*;
use crate::datetime::DateTime;
use crate::id::Id;
use crate::{v1dot0, v1dot1, v1dot2};

verus! {

/// A CAP alert of any of the three dialects.
#[derive(Debug, Clone, PartialEq)]
pub enum Alert {
    V1dot0(v1dot0::Alert),
    V1dot1(v1dot1::Alert),
    V1dot2(v1dot2::Alert),
}

/// Whether `b` is the newest-dialect form of `a`.
pub open spec fn latest_form(a: Alert, b: v1dot2::Alert) -> bool {
    match a {
        Alert::V1dot0(x) => v1dot2::alert_from_oldest(x, b),
        Alert::V1dot1(x) => v1dot2::alert_from_v1dot1(x, b),
        Alert::V1dot2(x) => b == x,
    }
}

pub open spec fn spec_identifier(a: Alert) -> Id {
    match a {
        Alert::V1dot0(x) => x.identifier,
        Alert::V1dot1(x) => x.identifier,
        Alert::V1dot2(x) => x.identifier,
    }
}

pub open spec fn spec_sender(a: Alert) -> Id {
    match a {
        Alert::V1dot0(x) => x.sender,
        Alert::V1dot1(x) => x.sender,
        Alert::V1dot2(x) => x.sender,
    }
}

pub open spec fn spec_sent(a: Alert) -> DateTime {
    match a {
        Alert::V1dot0(x) => x.sent,
        Alert::V1dot1(x) => x.sent,
        Alert::V1dot2(x) => x.sent,
    }
}

impl Alert {
    /// The alert's identifier.
    pub fn identifier(&self) -> (r: &Id)
        ensures
            *r == spec_identifier(*self),
    {
        match self {
            Alert::V1dot0(a) => &a.identifier,
            Alert::V1dot1(a) => &a.identifier,
            Alert::V1dot2(a) => &a.identifier,
        }
    }

    /// The alert's sender.
    pub fn sender(&self) -> (r: &Id)
        ensures
            *r == spec_sender(*self),
    {
        match self {
            Alert::V1dot0(a) => &a.sender,
            Alert::V1dot1(a) => &a.sender,
            Alert::V1dot2(a) => &a.sender,
        }
    }

    /// When the alert was sent.
    pub fn sent(&self) -> (r: DateTime)
        ensures
            r == spec_sent(*self),
    {
        match self {
            Alert::V1dot0(a) => a.sent,
            Alert::V1dot1(a) => a.sent,
            Alert::V1dot2(a) => a.sent,
        }
    }

    /// The namespace of the alert's dialect.
    pub fn xml_namespace(&self) -> (r: &'static str)
        ensures
            r@ == match *self {
                Alert::V1dot0(_) => v1dot0::XML_NAMESPACE@,
                Alert::V1dot1(_) => v1dot1::XML_NAMESPACE@,
                Alert::V1dot2(_) => v1dot2::XML_NAMESPACE@,
            },
    {
        match self {
            Alert::V1dot0(_) => v1dot0::XML_NAMESPACE,
            Alert::V1dot1(_) => v1dot1::XML_NAMESPACE,
            Alert::V1dot2(_) => v1dot2::XML_NAMESPACE,
        }
    }

    /// Upgrade the alert to CAP v1.2, one dialect at a time. This never fails.
    pub fn into_latest(self) -> (r: v1dot2::Alert)
        ensures
            latest_form(self, r),
    {
        match self {
            Alert::V1dot0(a) => v1dot2::Alert::from_v1dot0(a),
            Alert::V1dot1(a) => v1dot2::Alert::from_v1dot1(a),
            Alert::V1dot2(a) => a,
        }
    }
}

/// Upgrading keeps an alert's identifier, sender and sending time.
pub proof fn lemma_upgrade_keeps_envelope(a: Alert, b: v1dot2::Alert)
    requires
        latest_form(a, b),
    ensures
        b.identifier == spec_identifier(a),
        b.sender == spec_sender(a),
        b.sent == spec_sent(a),
{
}

} // verus!
