//! Resources between the binary form and the dialects.

use vstd::prelude::*;
use crate::digest::{all_hex, hex_byte, hex_text, lemma_sha1_round_trip, Sha1, Sha1ParseError};
use crate::embedded_data::{base64_decoded, base64_encoded, strip_ascii_space, EmbeddedContent};
use crate::protobuf::Resource;
use crate::text::trim;
use crate::url::{lenient_url, Url};
use crate::{v1dot0, v1dot1, v1dot2};

verus! {

/// The error returned when a binary resource does not fit a dialect.
#[derive(Debug, Clone, PartialEq, Eq)]
pub enum ResourceConversionError {
    /// The size is negative.
    Size(i64),
    /// The URI is not a usable address; this is it.
    Uri(String),
    /// The embedded content is not valid base64.
    DerefUri,
    /// Embedded content is present, but CAP v1.0 has no place for it.
    DerefUriPresent,
    /// The digest is invalid.
    Digest(Sha1ParseError),
}

/// Whether an optional size fits the dialects' unsigned size.
pub open spec fn size_ok(s: Option<i64>) -> bool {
    match s {
        Some(v) => v >= 0,
        None => true,
    }
}

pub open spec fn size_decoded(s: Option<i64>, r: Option<u64>) -> bool {
    match s {
        Some(v) => r == Some(v as u64),
        None => r is None,
    }
}

pub open spec fn uri_ok(s: Option<String>) -> bool {
    match s {
        Some(t) => lenient_url(t@) is Some,
        None => true,
    }
}

pub open spec fn uri_decoded(s: Option<String>, r: Option<Url>) -> bool {
    match s {
        Some(t) => match lenient_url(t@) {
            Some(Some(u)) => r matches Some(x) && x@ == u,
            _ => r is None,
        },
        None => r is None,
    }
}

pub open spec fn digest_ok(s: Option<String>) -> bool {
    match s {
        Some(t) => trim(t@).len() == 40 && all_hex(trim(t@)),
        None => true,
    }
}

pub open spec fn digest_decoded(s: Option<String>, r: Option<Sha1>) -> bool {
    match s {
        Some(t) => r matches Some(d) && d@.len() == 20 && forall|k: int|
            0 <= k < 20 ==> #[trigger] d@[k] == hex_byte(trim(t@), k),
        None => r is None,
    }
}

pub open spec fn content_ok(s: Option<String>) -> bool {
    match s {
        Some(t) => base64_decoded(strip_ascii_space(t@)) is Some,
        None => true,
    }
}

pub open spec fn content_decoded(s: Option<String>, r: Option<EmbeddedContent>) -> bool {
    match s {
        Some(t) => r matches Some(c) && Some(c@) == base64_decoded(strip_ascii_space(t@)),
        None => r is None,
    }
}

fn decode_size(s: Option<i64>) -> (r: Result<Option<u64>, ResourceConversionError>)
    ensures
        size_ok(s) <==> r is Ok,
        r matches Err(e) ==> e == ResourceConversionError::Size(s->0),
        r matches Ok(v) ==> size_decoded(s, v),
{
    match s {
        Some(v) => if v >= 0 {
            Ok(Some(v as u64))
        } else {
            Err(ResourceConversionError::Size(v))
        },
        None => Ok(None),
    }
}

fn decode_uri(s: Option<String>) -> (r: Result<Option<Url>, ResourceConversionError>)
    ensures
        uri_ok(s) <==> r is Ok,
        r matches Err(e) ==> e == ResourceConversionError::Uri(s->0),
        r matches Ok(v) ==> uri_decoded(s, v),
{
    match s {
        Some(t) => match Url::parse_lenient(t.as_str()) {
            Ok(u) => Ok(u),
            Err(_) => Err(ResourceConversionError::Uri(t)),
        },
        None => Ok(None),
    }
}

fn decode_digest(s: Option<String>) -> (r: Result<Option<Sha1>, ResourceConversionError>)
    ensures
        digest_ok(s) <==> r is Ok,
        r matches Err(e) ==> e == ResourceConversionError::Digest(
            if trim(s->0@).len() != 40 {
                Sha1ParseError::Length(trim(s->0@).len() as usize)
            } else {
                Sha1ParseError::Digits
            },
        ),
        r matches Ok(v) ==> digest_decoded(s, v),
{
    match s {
        Some(t) => match Sha1::parse(t.as_str()) {
            Ok(d) => Ok(Some(d)),
            Err(e) => Err(ResourceConversionError::Digest(e)),
        },
        None => Ok(None),
    }
}

fn decode_content(s: Option<String>) -> (r: Result<Option<EmbeddedContent>, ResourceConversionError>)
    ensures
        content_ok(s) <==> r is Ok,
        r matches Err(e) ==> e == ResourceConversionError::DerefUri,
        r matches Ok(v) ==> content_decoded(s, v),
{
    match s {
        Some(t) => match EmbeddedContent::parse(t.as_str()) {
            Ok(c) => Ok(Some(c)),
            Err(_) => Err(ResourceConversionError::DerefUri),
        },
        None => Ok(None),
    }
}

/// The binary form of an optional size: sizes beyond `i64` are dropped.
pub open spec fn size_encoded(s: Option<u64>, r: Option<i64>) -> bool {
    match s {
        Some(v) => if v <= i64::MAX {
            r == Some(v as i64)
        } else {
            r is None
        },
        None => r is None,
    }
}

pub open spec fn uri_encoded(u: Option<Url>, r: Option<String>) -> bool {
    match u {
        Some(x) => r matches Some(t) && t@ == x@,
        None => r is None,
    }
}

pub open spec fn digest_encoded(d: Option<Sha1>, r: Option<String>) -> bool {
    match d {
        Some(x) => r matches Some(t) && t@ == hex_text(x@),
        None => r is None,
    }
}

pub open spec fn content_encoded(c: Option<EmbeddedContent>, r: Option<String>) -> bool {
    match c {
        Some(x) => r matches Some(t) && t@ == base64_encoded(x@),
        None => r is None,
    }
}

fn encode_size(s: Option<u64>) -> (r: Option<i64>)
    ensures
        size_encoded(s, r),
{
    match s {
        Some(v) => if v <= i64::MAX as u64 {
            Some(v as i64)
        } else {
            None
        },
        None => None,
    }
}

fn encode_uri(u: Option<Url>) -> (r: Option<String>)
    ensures
        uri_encoded(u, r),
{
    match u {
        Some(x) => Some(x.to_string()),
        None => None,
    }
}

fn encode_digest(d: Option<Sha1>) -> (r: Option<String>)
    ensures
        digest_encoded(d, r),
{
    match d {
        Some(x) => Some(x.to_string()),
        None => None,
    }
}

fn encode_content(c: Option<EmbeddedContent>) -> (r: Option<String>)
    ensures
        content_encoded(c, r),
{
    match c {
        Some(x) => Some(x.to_string()),
        None => None,
    }
}

/// The error that a binary resource's fields give, checked in order (embedded content for
/// CAP v1.0 first, then size, URI, embedded content and digest); `None` where all fit.
pub open spec fn resource_error(v: Resource, oldest: bool) -> Option<ResourceConversionError> {
    if oldest && v.deref_uri is Some {
        Some(ResourceConversionError::DerefUriPresent)
    } else if !size_ok(v.size) {
        Some(ResourceConversionError::Size(v.size->0))
    } else if !uri_ok(v.uri) {
        Some(ResourceConversionError::Uri(v.uri->0))
    } else if !oldest && !content_ok(v.deref_uri) {
        Some(ResourceConversionError::DerefUri)
    } else if !digest_ok(v.digest) {
        Some(ResourceConversionError::Digest(
            if trim(v.digest->0@).len() != 40 {
                Sha1ParseError::Length(trim(v.digest->0@).len() as usize)
            } else {
                Sha1ParseError::Digits
            },
        ))
    } else {
        None
    }
}

/// Whether a binary resource converts to CAP v1.0.
pub open spec fn resource_fits_v1dot0(v: Resource) -> bool {
    v.deref_uri is None && size_ok(v.size) && uri_ok(v.uri) && digest_ok(v.digest)
}

/// Whether a binary resource converts to CAP v1.1 or v1.2.
pub open spec fn resource_fits(v: Resource) -> bool {
    size_ok(v.size) && uri_ok(v.uri) && content_ok(v.deref_uri) && digest_ok(v.digest)
}

pub open spec fn resource_decoded_v1dot0(v: Resource, r: v1dot0::Resource) -> bool {
    &&& r.description == v.resource_desc
    &&& r.mime_type == v.mime_type
    &&& size_decoded(v.size, r.size)
    &&& uri_decoded(v.uri, r.uri)
    &&& digest_decoded(v.digest, r.digest)
}

pub open spec fn resource_decoded_v1dot1(v: Resource, r: v1dot1::Resource) -> bool {
    &&& r.description == v.resource_desc
    &&& r.mime_type == v.mime_type
    &&& size_decoded(v.size, r.size)
    &&& uri_decoded(v.uri, r.uri)
    &&& content_decoded(v.deref_uri, r.embedded_content)
    &&& digest_decoded(v.digest, r.digest)
}

/// A missing MIME type becomes `application/octet-stream`, which CAP v1.2 requires.
pub open spec fn resource_decoded_v1dot2(v: Resource, r: v1dot2::Resource) -> bool {
    &&& r.description == v.resource_desc
    &&& match v.mime_type {
        Some(m) => r.mime_type == m,
        None => r.mime_type@ == v1dot2::DEFAULT_MIME_TYPE@,
    }
    &&& size_decoded(v.size, r.size)
    &&& uri_decoded(v.uri, r.uri)
    &&& content_decoded(v.deref_uri, r.embedded_content)
    &&& digest_decoded(v.digest, r.digest)
}

pub open spec fn resource_encoded_v1dot0(r: v1dot0::Resource, v: Resource) -> bool {
    &&& v.resource_desc == r.description
    &&& v.mime_type == r.mime_type
    &&& size_encoded(r.size, v.size)
    &&& uri_encoded(r.uri, v.uri)
    &&& v.deref_uri is None
    &&& digest_encoded(r.digest, v.digest)
}

pub open spec fn resource_encoded_v1dot1(r: v1dot1::Resource, v: Resource) -> bool {
    &&& v.resource_desc == r.description
    &&& v.mime_type == r.mime_type
    &&& size_encoded(r.size, v.size)
    &&& uri_encoded(r.uri, v.uri)
    &&& content_encoded(r.embedded_content, v.deref_uri)
    &&& digest_encoded(r.digest, v.digest)
}

pub open spec fn resource_encoded_v1dot2(r: v1dot2::Resource, v: Resource) -> bool {
    &&& v.resource_desc == r.description
    &&& v.mime_type == Some(r.mime_type)
    &&& size_encoded(r.size, v.size)
    &&& uri_encoded(r.uri, v.uri)
    &&& content_encoded(r.embedded_content, v.deref_uri)
    &&& digest_encoded(r.digest, v.digest)
}

impl v1dot0::Resource {
    /// Convert a binary resource; it may not carry embedded content.
    pub fn try_from_protobuf(value: Resource) -> (r: Result<v1dot0::Resource, ResourceConversionError>)
        ensures
            resource_fits_v1dot0(value) <==> r is Ok,
            r matches Ok(x) ==> resource_decoded_v1dot0(value, x),
            r matches Err(e) ==> resource_error(value, true) == Some(e),
    {
        if value.deref_uri.is_some() {
            return Err(ResourceConversionError::DerefUriPresent);
        }
        let size = decode_size(value.size)?;
        let uri = decode_uri(value.uri)?;
        let digest = decode_digest(value.digest)?;
        Ok(v1dot0::Resource {
            description: value.resource_desc,
            mime_type: value.mime_type,
            size,
            uri,
            digest,
        })
    }
}

impl v1dot1::Resource {
    /// Convert a binary resource.
    pub fn try_from_protobuf(value: Resource) -> (r: Result<v1dot1::Resource, ResourceConversionError>)
        ensures
            resource_fits(value) <==> r is Ok,
            r matches Ok(x) ==> resource_decoded_v1dot1(value, x),
            r matches Err(e) ==> resource_error(value, false) == Some(e),
    {
        let size = decode_size(value.size)?;
        let uri = decode_uri(value.uri)?;
        let embedded_content = decode_content(value.deref_uri)?;
        let digest = decode_digest(value.digest)?;
        Ok(v1dot1::Resource {
            description: value.resource_desc,
            mime_type: value.mime_type,
            size,
            uri,
            embedded_content,
            digest,
        })
    }
}

impl v1dot2::Resource {
    /// Convert a binary resource; a missing MIME type becomes `application/octet-stream`.
    pub fn try_from_protobuf(value: Resource) -> (r: Result<v1dot2::Resource, ResourceConversionError>)
        ensures
            resource_fits(value) <==> r is Ok,
            r matches Ok(x) ==> resource_decoded_v1dot2(value, x),
            r matches Err(e) ==> resource_error(value, false) == Some(e),
    {
        let size = decode_size(value.size)?;
        let uri = decode_uri(value.uri)?;
        let embedded_content = decode_content(value.deref_uri)?;
        let digest = decode_digest(value.digest)?;
        let mime_type = match value.mime_type {
            Some(m) => m,
            None => v1dot2::DEFAULT_MIME_TYPE.to_owned(),
        };
        Ok(v1dot2::Resource {
            description: value.resource_desc,
            mime_type,
            size,
            uri,
            embedded_content,
            digest,
        })
    }
}

impl Resource {
    /// The binary form of a CAP v1.0 resource.
    pub fn from_v1dot0(value: v1dot0::Resource) -> (r: Resource)
        ensures
            resource_encoded_v1dot0(value, r),
    {
        Resource {
            resource_desc: value.description,
            mime_type: value.mime_type,
            size: encode_size(value.size),
            uri: encode_uri(value.uri),
            deref_uri: None,
            digest: encode_digest(value.digest),
        }
    }

    /// The binary form of a CAP v1.1 resource.
    pub fn from_v1dot1(value: v1dot1::Resource) -> (r: Resource)
        ensures
            resource_encoded_v1dot1(value, r),
    {
        Resource {
            resource_desc: value.description,
            mime_type: value.mime_type,
            size: encode_size(value.size),
            uri: encode_uri(value.uri),
            deref_uri: encode_content(value.embedded_content),
            digest: encode_digest(value.digest),
        }
    }

    /// The binary form of a CAP v1.2 resource.
    pub fn from_v1dot2(value: v1dot2::Resource) -> (r: Resource)
        ensures
            resource_encoded_v1dot2(value, r),
    {
        Resource {
            resource_desc: value.description,
            mime_type: Some(value.mime_type),
            size: encode_size(value.size),
            uri: encode_uri(value.uri),
            deref_uri: encode_content(value.embedded_content),
            digest: encode_digest(value.digest),
        }
    }
}

proof fn lemma_digest_round_trip(d: Option<Sha1>, t: Option<String>, d2: Option<Sha1>)
    requires
        digest_encoded(d, t),
    ensures
        digest_ok(t),
        digest_decoded(t, d2) ==> d2 == d,
{
    if let Some(x) = d {
        lemma_sha1_round_trip(x);
        if digest_decoded(t, d2) {
            let y = d2->0;
            assert(y.0 =~= x.0) by {
                assert forall|k: int| 0 <= k < 20 implies y.0[k] == x.0[k] by {
                    assert(y@[k] == hex_byte(hex_text(x@), k));
                }
            }
        }
    }
}

proof fn lemma_size_round_trip(s: Option<u64>, b: Option<i64>, s2: Option<u64>)
    requires
        size_encoded(s, b),
        s matches Some(v) ==> v <= i64::MAX,
    ensures
        size_ok(b),
        size_decoded(b, s2) ==> s2 == s,
{
}

/// A CAP v1.2 resource survives the trip to the binary form and back, where its size fits
/// `i64` and it holds no URI or embedded content (whose text forms are the outside URL and
/// base64 codecs' to keep).
pub proof fn lemma_resource_round_trip_v1dot2(r: v1dot2::Resource, b: Resource, r2: v1dot2::Resource)
    requires
        resource_encoded_v1dot2(r, b),
        r.size matches Some(v) ==> v <= i64::MAX,
        r.uri is None,
        r.embedded_content is None,
    ensures
        resource_fits(b),
        resource_decoded_v1dot2(b, r2) ==> r2 == r,
{
    lemma_digest_round_trip(r.digest, b.digest, r2.digest);
    lemma_size_round_trip(r.size, b.size, r2.size);
}

/// A CAP v1.1 resource survives the trip to the binary form and back, under the same
/// conditions.
pub proof fn lemma_resource_round_trip_v1dot1(r: v1dot1::Resource, b: Resource, r2: v1dot1::Resource)
    requires
        resource_encoded_v1dot1(r, b),
        r.size matches Some(v) ==> v <= i64::MAX,
        r.uri is None,
        r.embedded_content is None,
    ensures
        resource_fits(b),
        resource_decoded_v1dot1(b, r2) ==> r2 == r,
{
    lemma_digest_round_trip(r.digest, b.digest, r2.digest);
    lemma_size_round_trip(r.size, b.size, r2.size);
}

/// A CAP v1.0 resource survives the trip to the binary form and back, where its size fits
/// `i64` and it holds no URI.
pub proof fn lemma_resource_round_trip_v1dot0(r: v1dot0::Resource, b: Resource, r2: v1dot0::Resource)
    requires
        resource_encoded_v1dot0(r, b),
        r.size matches Some(v) ==> v <= i64::MAX,
        r.uri is None,
    ensures
        resource_fits_v1dot0(b),
        resource_decoded_v1dot0(b, r2) ==> r2 == r,
{
    lemma_digest_round_trip(r.digest, b.digest, r2.digest);
    lemma_size_round_trip(r.size, b.size, r2.size);
}

} // verus!
