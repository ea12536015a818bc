//! Identifiers: non-empty strings without whitespace or the characters `,`, `<` and `&`.

use vstd::prelude::*;
use crate::text::{chars_of, is_white_space, substring, trim, trim_bounds, white_space};

verus! {

/// A character that an identifier may not hold besides whitespace.
pub open spec fn is_prohibited(c: char) -> bool {
    c == ',' || c == '<' || c == '&'
}

/// Whether `s` is a valid identifier.
pub open spec fn is_valid_id(s: Seq<char>) -> bool {
    &&& s.len() > 0
    &&& forall|i: int| 0 <= i < s.len() ==> !is_white_space(#[trigger] s[i])
    &&& forall|i: int| 0 <= i < s.len() ==> !is_prohibited(#[trigger] s[i])
}

/// What validating `s` as an identifier gives.
pub open spec fn id_outcome(s: Seq<char>) -> Result<Seq<char>, InvalidIdError> {
    if s.len() == 0 {
        Err(InvalidIdError::Empty)
    } else if exists|i: int| 0 <= i < s.len() && is_white_space(#[trigger] s[i]) {
        Err(InvalidIdError::ContainsWhitespace)
    } else if exists|i: int| 0 <= i < s.len() && is_prohibited(#[trigger] s[i]) {
        Err(InvalidIdError::ContainsProhibitedCharacter)
    } else {
        Ok(s)
    }
}

/// An identifier, i.e. a non-empty string with no whitespace and none of `,`, `<`, `&`.
#[derive(Debug, Clone, PartialEq, Eq)]
pub struct Id(String);

/// The error returned when an `Id` would be invalid.
#[derive(Debug, Clone, Copy, PartialEq, Eq, Structural)]
pub enum InvalidIdError {
    /// The string is empty.
    Empty,
    /// The string contains whitespace.
    ContainsWhitespace,
    /// The string contains `,`, `<` or `&`.
    ContainsProhibitedCharacter,
}

impl View for Id {
    type V = Seq<char>;

    closed spec fn view(&self) -> Seq<char> {
        self.0@
    }
}

impl Id {
    /// Whether the held string is a valid identifier.
    pub open spec fn wf(&self) -> bool {
        is_valid_id(self@)
    }

    /// Validate `string` as an identifier, as it stands.
    pub fn new(string: String) -> (r: Result<Id, InvalidIdError>)
        ensures
            match (r, id_outcome(string@)) {
                (Ok(id), Ok(s)) => id@ == s && id.wf(),
                (Err(e), Err(f)) => e == f,
                _ => false,
            },
    {
        let cs = chars_of(string.as_str());
        if cs.len() == 0 {
            return Err(InvalidIdError::Empty);
        }
        let mut i: usize = 0;
        while i < cs.len()
            invariant
                cs@ == string@,
                i <= cs@.len(),
                forall|j: int| 0 <= j < i ==> !is_white_space(#[trigger] cs@[j]),
            decreases cs.len() - i,
        {
            if white_space(cs[i]) {
                return Err(InvalidIdError::ContainsWhitespace);
            }
            i = i + 1;
        }
        let mut i: usize = 0;
        while i < cs.len()
            invariant
                cs@ == string@,
                i <= cs@.len(),
                forall|j: int| 0 <= j < cs@.len() ==> !is_white_space(#[trigger] cs@[j]),
                forall|j: int| 0 <= j < i ==> !is_prohibited(#[trigger] cs@[j]),
            decreases cs.len() - i,
        {
            let c = cs[i];
            if c == ',' || c == '<' || c == '&' {
                return Err(InvalidIdError::ContainsProhibitedCharacter);
            }
            i = i + 1;
        }
        Ok(Id(string))
    }

    /// Parse an identifier from text: surrounding whitespace is trimmed first.
    pub fn parse(s: &str) -> (r: Result<Id, InvalidIdError>)
        ensures
            match (r, id_outcome(trim(s@))) {
                (Ok(id), Ok(t)) => id@ == t && id.wf(),
                (Err(e), Err(f)) => e == f,
                _ => false,
            },
    {
        let cs = chars_of(s);
        let (a, b) = trim_bounds(&cs, 0, cs.len());
        assert(cs@.subrange(0, cs@.len() as int) =~= s@);
        Id::new(substring(&cs, a, b))
    }

    /// The identifier as a string slice.
    pub fn as_str(&self) -> (r: &str)
        ensures
            r@ == self@,
    {
        self.0.as_str()
    }

    /// The identifier's text.
    pub fn to_string(&self) -> (r: String)
        ensures
            r@ == self@,
    {
        self.0.clone()
    }

    /// Consume the identifier, returning its string.
    pub fn into_inner(self) -> (r: String)
        ensures
            r@ == self@,
    {
        self.0
    }
}

impl std::str::FromStr for Id {
    type Err = InvalidIdError;

    fn from_str(s: &str) -> Result<Id, InvalidIdError> {
        Id::parse(s)
    }
}

/// An identifier's text parses back to the same identifier.
pub proof fn lemma_id_round_trip(id: Id)
    requires
        id.wf(),
    ensures
        trim(id@) == id@,
        id_outcome(trim(id@)) == Ok::<Seq<char>, InvalidIdError>(id@),
{
    let s = id@;
    assert(!is_white_space(s[0]));
    assert(!is_white_space(s.last()));
}

/// A valid identifier validates as itself.
pub proof fn lemma_id_outcome_valid(s: Seq<char>)
    requires
        is_valid_id(s),
    ensures
        id_outcome(s) == Ok::<Seq<char>, InvalidIdError>(s),
{
}

} // verus!
