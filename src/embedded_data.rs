//! Content embedded in an alert as base64 text.

use vstd::prelude::*;
use crate::text::{ascii_space, chars_of, is_ascii_space, string_of};

verus! {

/// The bytes that base64 text decodes to under the standard padded alphabet, if it is valid.
pub uninterp spec fn base64_decoded(s: Seq<char>) -> Option<Seq<u8>>;

/// The standard padded base64 text of some bytes.
pub uninterp spec fn base64_encoded(b: Seq<u8>) -> Seq<char>;

/// Relies on `base64ct::Base64::decode_vec`: decodes standard padded base64, or fails.
#[verifier::external_body]
fn decode_base64(s: &str) -> (r: Option<Vec<u8>>)
    ensures
        match r {
            Some(v) => base64_decoded(s@) == Some(v@),
            None => base64_decoded(s@) is None,
        },
{
    <base64ct::Base64 as base64ct::Encoding>::decode_vec(s).ok()
}

/// A character of the standard padded base64 alphabet: `A-Z`, `a-z`, `0-9`, `+`, `/`, `=`.
pub open spec fn is_base64_char(c: char) -> bool {
    ('A' <= c && c <= 'Z') || ('a' <= c && c <= 'z') || ('0' <= c && c <= '9') || c == '+'
        || c == '/' || c == '='
}

/// Relies on `base64ct::Base64::encode_string`: encodes as standard padded base64, whose
/// text holds only characters of its alphabet and decodes back to the bytes (the crate's
/// round-trip tests in `tests/common/mod.rs` check the latter).
#[verifier::external_body]
fn encode_base64(b: &[u8]) -> (r: String)
    ensures
        r@ == base64_encoded(b@),
        forall|i: int| 0 <= i < r@.len() ==> is_base64_char(#[trigger] r@[i]),
        base64_decoded(r@) == Some(b@),
{
    <base64ct::Base64 as base64ct::Encoding>::encode_string(b)
}

/// `s` without its ASCII whitespace.
pub open spec fn strip_ascii_space(s: Seq<char>) -> Seq<char>
    decreases s.len(),
{
    if s.len() == 0 {
        s
    } else if is_ascii_space(s.last()) {
        strip_ascii_space(s.drop_last())
    } else {
        strip_ascii_space(s.drop_last()).push(s.last())
    }
}

/// Arbitrary bytes, written in an alert as base64.
#[derive(Debug, Clone, PartialEq, Eq)]
pub struct EmbeddedContent(Vec<u8>);

/// The error returned when embedded content is not valid base64.
#[derive(Debug, Copy, Clone, PartialEq, Eq, Structural)]
pub struct InvalidEmbeddedContentError;

impl View for EmbeddedContent {
    type V = Seq<u8>;

    closed spec fn view(&self) -> Seq<u8> {
        self.0@
    }
}

impl EmbeddedContent {
    /// Hold `bytes` as embedded content.
    pub fn from_bytes(bytes: Vec<u8>) -> (r: EmbeddedContent)
        ensures
            r@ == bytes@,
    {
        EmbeddedContent(bytes)
    }

    /// The content's bytes.
    pub fn as_slice(&self) -> (r: &[u8])
        ensures
            r@ == self@,
    {
        self.0.as_slice()
    }

    /// Consume the content, returning its bytes.
    pub fn into_inner(self) -> (r: Vec<u8>)
        ensures
            r@ == self@,
    {
        self.0
    }

    /// Decode base64 text, after removing any ASCII whitespace in it.
    pub fn parse(s: &str) -> (r: Result<EmbeddedContent, InvalidEmbeddedContentError>)
        ensures
            match base64_decoded(strip_ascii_space(s@)) {
                Some(b) => r matches Ok(c) && c@ == b,
                None => r is Err,
            },
    {
        let cs = chars_of(s);
        let mut kept: Vec<char> = Vec::new();
        let mut i: usize = 0;
        while i < cs.len()
            invariant
                cs@ == s@,
                i <= cs@.len(),
                kept@ == strip_ascii_space(cs@.subrange(0, i as int)),
            decreases cs.len() - i,
        {
            let c = cs[i];
            if !ascii_space(c) {
                kept.push(c);
            }
            assert(cs@.subrange(0, i + 1).drop_last() =~= cs@.subrange(0, i as int));
            i = i + 1;
        }
        assert(cs@.subrange(0, cs@.len() as int) =~= s@);
        let text = string_of(kept.as_slice());
        match decode_base64(text.as_str()) {
            Some(bytes) => Ok(EmbeddedContent(bytes)),
            None => Err(InvalidEmbeddedContentError),
        }
    }

    /// The content as standard padded base64.
    pub fn to_string(&self) -> (r: String)
        ensures
            r@ == base64_encoded(self@),
            forall|i: int| 0 <= i < r@.len() ==> is_base64_char(#[trigger] r@[i]),
            base64_decoded(r@) == Some(self@),
    {
        encode_base64(self.0.as_slice())
    }
}

proof fn lemma_strip_no_space(s: Seq<char>)
    requires
        forall|i: int| 0 <= i < s.len() ==> !is_ascii_space(#[trigger] s[i]),
    ensures
        strip_ascii_space(s) == s,
    decreases s.len(),
{
    if s.len() > 0 {
        lemma_strip_no_space(s.drop_last());
        assert(s.drop_last().push(s.last()) =~= s);
    }
}

/// Writing content as base64 and reading the text gives the same bytes back.
pub proof fn lemma_content_round_trip(t: Seq<char>, b: Seq<u8>)
    requires
        forall|i: int| 0 <= i < t.len() ==> is_base64_char(#[trigger] t[i]),
        base64_decoded(t) == Some(b),
    ensures
        base64_decoded(strip_ascii_space(t)) == Some(b),
{
    assert forall|i: int| 0 <= i < t.len() implies !is_ascii_space(#[trigger] t[i]) by {
        assert(is_base64_char(t[i]));
    }
    lemma_strip_no_space(t);
}

} // verus!
