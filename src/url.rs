//! Web addresses, read leniently: a bare domain name is taken to mean `http://`.

use vstd::prelude::*;
use crate::text::{chars_of, find_char, first_of, is_ascii_alnum, push_str, slice_chars, str_eq, string_of};

verus! {

/// The serialization of the URL that `s` parses to as an absolute URL, if it does.
pub uninterp spec fn url_parsed(s: Seq<char>) -> Option<Seq<char>>;

/// Relies on `url::Url::parse`: parses an absolute URL, giving its serialization.
#[verifier::external_body]
fn parse_absolute_url(s: &str) -> (r: Option<String>)
    ensures
        match r {
            Some(u) => url_parsed(s@) == Some(u@),
            None => url_parsed(s@) is None,
        },
{
    match url::Url::parse(s) {
        Ok(u) => Some(String::from(u)),
        Err(_) => None,
    }
}

/// The part of `s` before its first `/`.
pub open spec fn host_part(s: Seq<char>) -> Seq<char> {
    match first_of(s, '/') {
        Some(k) => s.subrange(0, k),
        None => s,
    }
}

/// The text after the last `.` of `h`, or all of `h`.
pub open spec fn last_label(h: Seq<char>) -> Seq<char>
    decreases h.len(),
{
    if h.len() == 0 {
        h
    } else if h.last() == '.' {
        Seq::empty()
    } else {
        last_label(h.drop_last()).push(h.last())
    }
}

/// Whether a label is one of the top-level domains that a bare domain may end in.
pub open spec fn is_known_tld(l: Seq<char>) -> bool {
    l == "com"@ || l == "org"@ || l == "net"@ || l == "gov"@ || l == "us"@
}

/// Whether `s` looks like a domain name written without a scheme: before any `/` it holds
/// only letters, digits and dots, and its last label is a known top-level domain.
pub open spec fn looks_like_bare_domain(s: Seq<char>) -> bool {
    let h = host_part(s);
    (forall|i: int| 0 <= i < h.len() ==> #[trigger] h[i] == '.' || is_ascii_alnum(h[i]))
        && is_known_tld(last_label(h))
}

/// Whether `s` is a scheme alone, which is read as no address at all.
pub open spec fn is_bare_scheme(s: Seq<char>) -> bool {
    s == "http://"@ || s == "https://"@
}

/// What reading `s` as an optional address gives: the URL it parses to; else, for a bare
/// domain, the URL that `http://` and `s` parse to; else nothing for a bare scheme; else an
/// error (`None`).
pub open spec fn lenient_url(s: Seq<char>) -> Option<Option<Seq<char>>> {
    if url_parsed(s) is Some {
        Some(url_parsed(s))
    } else if looks_like_bare_domain(s) && url_parsed("http://"@ + s) is Some {
        Some(url_parsed("http://"@ + s))
    } else if is_bare_scheme(s) {
        Some(None)
    } else {
        None
    }
}

/// An absolute URL, held as its serialization.
#[derive(Debug, Clone, PartialEq, Eq)]
pub struct Url(String);

/// The error returned when text is not a usable address.
#[derive(Debug, Copy, Clone, PartialEq, Eq, Structural)]
pub struct InvalidUrlError;

impl View for Url {
    type V = Seq<char>;

    closed spec fn view(&self) -> Seq<char> {
        self.0@
    }
}

fn ascii_alnum(c: char) -> (r: bool)
    ensures
        r == is_ascii_alnum(c),
{
    ('a' <= c && c <= 'z') || ('A' <= c && c <= 'Z') || ('0' <= c && c <= '9')
}

/// Whether `s` looks like a domain name written without a scheme.
fn bare_domain(s: &str) -> (r: bool)
    ensures
        r == looks_like_bare_domain(s@),
{
    let cs = chars_of(s);
    let end = match find_char(&cs, '/') {
        Some(k) => k,
        None => cs.len(),
    };
    let h = slice_chars(&cs, 0, end);
    assert(h@ == host_part(s@)) by {
        if end == cs.len() {
            assert(cs@.subrange(0, end as int) =~= cs@);
        }
    }
    let mut i: usize = 0;
    let mut dot: usize = 0;
    while i < h.len()
        invariant
            i <= h@.len(),
            h@ == host_part(s@),
            dot <= i,
            forall|j: int| 0 <= j < i ==> #[trigger] h@[j] == '.' || is_ascii_alnum(h@[j]),
            last_label(h@.subrange(0, i as int)) == h@.subrange(dot as int, i as int),
        decreases h.len() - i,
    {
        let c = h[i];
        assert(h@.subrange(0, i + 1).drop_last() =~= h@.subrange(0, i as int));
        if c == '.' {
            dot = i + 1;
            assert(h@.subrange(dot as int, i + 1) =~= Seq::<char>::empty());
        } else if !ascii_alnum(c) {
            assert(!(h@[i as int] == '.' || is_ascii_alnum(h@[i as int])));
            return false;
        } else {
            assert(h@.subrange(dot as int, i + 1) =~= h@.subrange(dot as int, i as int).push(c));
        }
        i = i + 1;
    }
    assert(h@.subrange(0, h@.len() as int) =~= h@);
    let label = string_of(slice_chars(&h, dot, h.len()).as_slice());
    str_eq(label.as_str(), "com") || str_eq(label.as_str(), "org") || str_eq(label.as_str(), "net")
        || str_eq(label.as_str(), "gov") || str_eq(label.as_str(), "us")
}

impl Url {
    /// Parse an absolute URL.
    pub fn parse(s: &str) -> (r: Result<Url, InvalidUrlError>)
        ensures
            match url_parsed(s@) {
                Some(u) => r matches Ok(v) && v@ == u,
                None => r is Err,
            },
    {
        match parse_absolute_url(s) {
            Some(u) => Ok(Url(u)),
            None => Err(InvalidUrlError),
        }
    }

    /// Read an optional address leniently: a bare domain name is taken to lack `http://`,
    /// and a scheme alone means no address.
    pub fn parse_lenient(s: &str) -> (r: Result<Option<Url>, InvalidUrlError>)
        ensures
            match lenient_url(s@) {
                Some(Some(u)) => r matches Ok(Some(v)) && v@ == u,
                Some(None) => r matches Ok(None),
                None => r is Err,
            },
    {
        if let Some(u) = parse_absolute_url(s) {
            return Ok(Some(Url(u)));
        }
        if bare_domain(s) {
            let mut t = String::new();
            push_str(&mut t, "http://");
            push_str(&mut t, s);
            assert(t@ =~= "http://"@ + s@);
            if let Some(u) = parse_absolute_url(t.as_str()) {
                return Ok(Some(Url(u)));
            }
        }
        if str_eq(s, "http://") || str_eq(s, "https://") {
            Ok(None)
        } else {
            Err(InvalidUrlError)
        }
    }

    /// The URL's serialization.
    pub fn as_str(&self) -> (r: &str)
        ensures
            r@ == self@,
    {
        self.0.as_str()
    }

    /// The URL's serialization.
    pub fn to_string(&self) -> (r: String)
        ensures
            r@ == self@,
    {
        self.0.clone()
    }
}

} // verus!
