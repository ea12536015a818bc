//! CAP v1.0 key/value maps, written as `key=value` strings with a restricted key alphabet.

use vstd::prelude::*;
use crate::map::{all_values, first_value};
use crate::text::{chars_of, contains, find_char, push_char, push_str, str_eq, string_of, substring};

verus! {

/// A character that a key may not hold.
pub open spec fn is_key_prohibited(c: char) -> bool {
    c == ' ' || c == '<' || c == '>' || c == '&' || c == ',' || c == '='
}

pub open spec fn is_key(s: Seq<char>) -> bool {
    forall|i: int| 0 <= i < s.len() ==> !is_key_prohibited(#[trigger] s[i])
}

/// A map key: a string without spaces or any of `<`, `>`, `&`, `,`, `=`.
#[derive(Debug, Clone, PartialEq, Eq)]
pub struct Key(String);

/// The error returned when a `Key` would be invalid; it holds the rejected text.
#[derive(Debug, Clone, PartialEq, Eq)]
pub struct InvalidKeyError(pub String);

impl View for Key {
    type V = Seq<char>;

    closed spec fn view(&self) -> Seq<char> {
        self.0@
    }
}

impl Key {
    pub open spec fn wf(&self) -> bool {
        is_key(self@)
    }

    /// Validate `value` as a key.
    pub fn new(value: String) -> (r: Result<Key, InvalidKeyError>)
        ensures
            is_key(value@) <==> r is Ok,
            r matches Ok(k) ==> k@ == value@ && k.wf(),
            r matches Err(e) ==> e.0@ == value@,
    {
        let cs = chars_of(value.as_str());
        let mut i: usize = 0;
        while i < cs.len()
            invariant
                cs@ == value@,
                i <= cs@.len(),
                forall|j: int| 0 <= j < i ==> !is_key_prohibited(#[trigger] cs@[j]),
            decreases cs.len() - i,
        {
            let c = cs[i];
            if c == ' ' || c == '<' || c == '>' || c == '&' || c == ',' || c == '=' {
                assert(is_key_prohibited(cs@[i as int]));
                return Err(InvalidKeyError(value));
            }
            i = i + 1;
        }
        Ok(Key(value))
    }

    /// The key as a string slice.
    pub fn as_str(&self) -> (r: &str)
        ensures
            r@ == self@,
    {
        self.0.as_str()
    }

    /// A key from a string known to be valid.
    pub fn from_static(value: &'static str) -> (r: Key)
        requires
            is_key(value@),
        ensures
            r@ == value@,
    {
        match Key::new(value.to_owned()) {
            Ok(k) => k,
            Err(_) => Key(value.to_owned()),
        }
    }

    /// Consume the key, returning its string.
    pub fn into_inner(self) -> (r: String)
        ensures
            r@ == self@,
    {
        self.0
    }
}

/// How an entry is written: `key=value`.
pub open spec fn entry_text(e: (Seq<char>, Seq<char>)) -> Seq<char> {
    e.0 + seq!['='] + e.1
}

/// The key and value that `s` writes as `key=value`, split at its first `=`.
pub open spec fn entry_parts(s: Seq<char>) -> Option<(Seq<char>, Seq<char>)> {
    match crate::text::first_of(s, '=') {
        Some(k) => Some((s.subrange(0, k), s.subrange(k + 1, s.len() as int))),
        None => None,
    }
}

/// The error returned when a map entry is invalid.
#[derive(Debug, Clone, PartialEq, Eq)]
pub enum InvalidEntryError {
    /// The entry has no `=`.
    MissingEquals,
    /// The key is invalid.
    Key(InvalidKeyError),
}

/// A CAP v1.0 key/value map, which keeps its entries in order and permits repeated keys.
#[derive(Debug, Clone, PartialEq, Eq, Default)]
pub struct KeyValueMap(Vec<(Key, String)>);

impl View for KeyValueMap {
    type V = Seq<(Seq<char>, Seq<char>)>;

    closed spec fn view(&self) -> Seq<(Seq<char>, Seq<char>)> {
        self.0@.map_values(|e: (Key, String)| (e.0@, e.1@))
    }
}

impl KeyValueMap {
    pub open spec fn wf(&self) -> bool {
        forall|i: int| 0 <= i < self@.len() ==> is_key(#[trigger] self@[i].0)
    }

    /// An empty map.
    pub fn new() -> (r: KeyValueMap)
        ensures
            r@ == Seq::<(Seq<char>, Seq<char>)>::empty(),
            r.wf(),
    {
        let r = KeyValueMap(Vec::new());
        assert(r@ =~= Seq::<(Seq<char>, Seq<char>)>::empty());
        r
    }

    /// The value of the first entry whose key is `key`.
    pub fn get(&self, key: &str) -> (r: Option<&str>)
        ensures
            match first_value(self@, key@) {
                Some(v) => r matches Some(s) && s@ == v,
                None => r is None,
            },
    {
        let mut i: usize = 0;
        assert(self@.subrange(0, self@.len() as int) =~= self@);
        while i < self.0.len()
            invariant
                i <= self.0@.len(),
                self@.len() == self.0@.len(),
                forall|j: int| 0 <= j < i ==> (#[trigger] self@[j]).0 != key@,
                first_value(self@, key@) == first_value(self@.subrange(i as int, self@.len() as int), key@),
            decreases self.0.len() - i,
        {
            let e = &self.0[i];
            let ghost rest = self@.subrange(i as int, self@.len() as int);
            assert(rest[0] == self@[i as int]);
            assert(self@[i as int] == (e.0@, e.1@));
            if str_eq(e.0.as_str(), key) {
                return Some(e.1.as_str());
            }
            assert(rest.drop_first() =~= self@.subrange(i + 1, self@.len() as int));
            i = i + 1;
        }
        None
    }

    /// The values of all entries whose key is `key`, in order.
    pub fn get_all(&self, key: &str) -> (r: Vec<&str>)
        ensures
            r@.map_values(|s: &str| s@) == all_values(self@, key@),
    {
        let mut out: Vec<&str> = Vec::new();
        let mut i: usize = 0;
        while i < self.0.len()
            invariant
                i <= self.0@.len(),
                self@.len() == self.0@.len(),
                out@.map_values(|s: &str| s@) == all_values(self@.subrange(0, i as int), key@),
            decreases self.0.len() - i,
        {
            let e = &self.0[i];
            assert(self@[i as int] == (e.0@, e.1@));
            assert(self@.subrange(0, i + 1).drop_last() =~= self@.subrange(0, i as int));
            let ghost before = out@.map_values(|s: &str| s@);
            if str_eq(e.0.as_str(), key) {
                out.push(e.1.as_str());
                assert(out@.map_values(|s: &str| s@) =~= before.push(e.1@));
            }
            i = i + 1;
        }
        assert(self@.subrange(0, self@.len() as int) =~= self@);
        out
    }

    /// Append an entry.
    pub fn push(&mut self, key: Key, value: String)
        ensures
            final(self)@ == old(self)@.push((key@, value@)),
            old(self).wf() && key.wf() ==> final(self).wf(),
    {
        self.0.push((key, value));
        assert(final(self)@ =~= old(self)@.push((key@, value@)));
    }

    /// The number of entries.
    pub fn len(&self) -> (r: usize)
        ensures
            r == self@.len(),
    {
        self.0.len()
    }

    /// Whether the map has no entries.
    pub fn is_empty(&self) -> (r: bool)
        ensures
            r == (self@.len() == 0),
    {
        self.0.len() == 0
    }

    /// The entries, in order.
    pub fn iter(&self) -> (r: &[(Key, String)])
        ensures
            r@.map_values(|e: (Key, String)| (e.0@, e.1@)) == self@,
    {
        self.0.as_slice()
    }

    /// Consume the map, returning its entries.
    pub fn into_entries(self) -> (r: Vec<(Key, String)>)
        ensures
            r@.map_values(|e: (Key, String)| (e.0@, e.1@)) == self@,
    {
        self.0
    }

    /// Read one `key=value` entry, split at the first `=`.
    pub fn parse_entry(s: &str) -> (r: Result<(Key, String), InvalidEntryError>)
        ensures
            match entry_parts(s@) {
                None => r matches Err(InvalidEntryError::MissingEquals),
                Some((k, v)) => if is_key(k) {
                    r matches Ok((key, value)) && key@ == k && value@ == v && key.wf()
                } else {
                    r matches Err(InvalidEntryError::Key(e)) && e.0@ == k
                },
            },
    {
        let cs = chars_of(s);
        match find_char(&cs, '=') {
            None => Err(InvalidEntryError::MissingEquals),
            Some(k) => {
                let n = cs.len();
                let value = substring(&cs, k + 1, n);
                match Key::new(substring(&cs, 0, k)) {
                    Ok(key) => Ok((key, value)),
                    Err(e) => Err(InvalidEntryError::Key(e)),
                }
            },
        }
    }

    /// Each entry written as `key=value`, in order.
    pub fn entry_strings(&self) -> (r: Vec<String>)
        ensures
            r@.len() == self@.len(),
            forall|i: int| 0 <= i < r@.len() ==> (#[trigger] r@[i])@ == entry_text(self@[i]),
    {
        let mut out: Vec<String> = Vec::new();
        let mut i: usize = 0;
        while i < self.0.len()
            invariant
                i <= self.0@.len(),
                self@.len() == self.0@.len(),
                out@.len() == i,
                forall|j: int| 0 <= j < i ==> (#[trigger] out@[j])@ == entry_text(self@[j]),
            decreases self.0.len() - i,
        {
            let e = &self.0[i];
            assert(self@[i as int] == (e.0@, e.1@));
            let mut t = String::new();
            push_str(&mut t, e.0.as_str());
            push_char(&mut t, '=');
            push_str(&mut t, e.1.as_str());
            assert(t@ =~= entry_text(self@[i as int]));
            out.push(t);
            i = i + 1;
        }
        out
    }
}

} // verus!
