//! Optional language tags of the form `[A-Za-z]{1,8}(-[A-Za-z0-9]{1,8})*`.

use vstd::prelude::*;
use crate::text::{chars_of, is_ascii_alnum, is_ascii_alpha, str_eq};

verus! {

/// The language assumed where none is given.
pub const DEFAULT_LANGUAGE: &'static str = "en-US";

/// The number of characters other than `-` that end at position `i` of `s`.
pub open spec fn run_len(s: Seq<char>, i: int) -> nat
    decreases i + 1,
{
    if i < 0 || i >= s.len() || s[i] == '-' {
        0
    } else {
        1 + run_len(s, i - 1)
    }
}

/// Whether no `-` occurs in `s` before position `i`.
pub open spec fn no_dash_before(s: Seq<char>, i: int) -> bool {
    forall|k: int| 0 <= k < i ==> s[k] != '-'
}

/// Whether the character at `i` may stand there: a letter in the first subtag, a letter or
/// digit in the others.
pub open spec fn tag_char_ok(s: Seq<char>, i: int) -> bool {
    s[i] == '-' || (is_ascii_alnum(s[i]) && (no_dash_before(s, i) ==> is_ascii_alpha(s[i])))
}

/// Whether `s` matches `[A-Za-z]{1,8}(-[A-Za-z0-9]{1,8})*`.
pub open spec fn is_language_tag(s: Seq<char>) -> bool {
    &&& s.len() > 0
    &&& s[0] != '-'
    &&& s.last() != '-'
    &&& forall|i: int| 0 <= i < s.len() - 1 ==> !(#[trigger] s[i] == '-' && s[i + 1] == '-')
    &&& forall|i: int| 0 <= i < s.len() ==> #[trigger] tag_char_ok(s, i)
    &&& forall|i: int| 0 <= i < s.len() ==> #[trigger] run_len(s, i) <= 8
}

/// An optional language tag; absence and the empty string both mean "unspecified", which
/// reads as `en-US`.
#[derive(Debug, Clone, Default)]
pub struct Language(Option<String>);

/// The error returned when a `Language` would be invalid; it holds the rejected text.
#[derive(Debug, Clone, PartialEq, Eq)]
pub struct InvalidLanguageError(pub String);

impl Language {
    /// The tag, or `None` where it is unspecified.
    pub closed spec fn tag(&self) -> Option<Seq<char>> {
        match &self.0 {
            Some(s) => Some(s@),
            None => None,
        }
    }

    /// The tag as read: the given one, or `en-US`.
    pub open spec fn effective(&self) -> Seq<char> {
        match self.tag() {
            Some(t) => t,
            None => DEFAULT_LANGUAGE@,
        }
    }

    pub open spec fn wf(&self) -> bool {
        match self.tag() {
            Some(t) => is_language_tag(t),
            None => true,
        }
    }

    /// The unspecified language.
    pub fn unspecified() -> (r: Language)
        ensures
            r.tag() == None::<Seq<char>>,
    {
        Language(None)
    }

    /// Validate an optional language tag. The empty string counts as unspecified.
    pub fn new(value: Option<String>) -> (r: Result<Language, InvalidLanguageError>)
        ensures
            match value {
                None => r matches Ok(l) && l.tag() == None::<Seq<char>>,
                Some(s) => if s@.len() == 0 {
                    r matches Ok(l) && l.tag() == None::<Seq<char>>
                } else if is_language_tag(s@) {
                    r matches Ok(l) && l.tag() == Some(s@) && l.wf()
                } else {
                    r matches Err(e) && e.0@ == s@
                },
            },
    {
        match value {
            None => Ok(Language(None)),
            Some(s) => {
                if chars_of(s.as_str()).len() == 0 {
                    Ok(Language(None))
                } else if check_tag(s.as_str()) {
                    Ok(Language(Some(s)))
                } else {
                    Err(InvalidLanguageError(s))
                }
            },
        }
    }

    /// Consume the `Language`, returning the tag if one was given.
    pub fn into_inner(self) -> (r: Option<String>)
        ensures
            match r {
                Some(s) => self.tag() == Some(s@),
                None => self.tag() == None::<Seq<char>>,
            },
    {
        self.0
    }

    /// The tag, with `en-US` where none was given.
    pub fn as_str(&self) -> (r: &str)
        ensures
            r@ == self.effective(),
    {
        match &self.0 {
            Some(s) => s.as_str(),
            None => DEFAULT_LANGUAGE,
        }
    }

    /// The tag, if one was given.
    pub fn as_option_str(&self) -> (r: Option<&str>)
        ensures
            match r {
                Some(s) => self.tag() == Some(s@),
                None => self.tag() == None::<Seq<char>>,
            },
    {
        match &self.0 {
            Some(s) => Some(s.as_str()),
            None => None,
        }
    }

    /// Whether no tag was given.
    pub fn is_empty(&self) -> (r: bool)
        ensures
            r == (self.tag() == None::<Seq<char>>),
    {
        self.0.is_none()
    }
}

impl PartialEq for Language {
    fn eq(&self, other: &Language) -> (r: bool) {
        str_eq(self.as_str(), other.as_str())
    }
}

impl vstd::std_specs::cmp::PartialEqSpecImpl for Language {
    open spec fn obeys_eq_spec() -> bool {
        true
    }

    open spec fn eq_spec(&self, other: &Language) -> bool {
        self.effective() == other.effective()
    }
}

/// Whether `s` is a well-formed language tag.
fn check_tag(s: &str) -> (r: bool)
    ensures
        r == is_language_tag(s@),
{
    let cs = chars_of(s);
    let n = cs.len();
    if n == 0 || cs[0] == '-' || cs[n - 1] == '-' {
        return false;
    }
    let mut seen_dash = false;
    let mut run: usize = 0;
    let mut i: usize = 0;
    while i < n
        invariant
            cs@ == s@,
            n == cs@.len(),
            n > 0,
            cs@[0] != '-',
            i <= n,
            seen_dash == !no_dash_before(cs@, i as int),
            run == run_len(cs@, i - 1),
            forall|j: int| 0 <= j < i - 1 ==> !(#[trigger] cs@[j] == '-' && cs@[j + 1] == '-'),
            forall|j: int| 0 <= j < i ==> #[trigger] tag_char_ok(cs@, j),
            forall|j: int| 0 <= j < i ==> #[trigger] run_len(cs@, j) <= 8,
        decreases n - i,
    {
        let c = cs[i];
        if c == '-' {
            if i > 0 && cs[i - 1] == '-' {
                return false;
            }
            seen_dash = true;
            run = 0;
            assert(run_len(cs@, i as int) == 0);
        } else {
            let alpha = ('a' <= c && c <= 'z') || ('A' <= c && c <= 'Z');
            let digit = '0' <= c && c <= '9';
            if !(alpha || (seen_dash && digit)) {
                assert(!tag_char_ok(cs@, i as int));
                return false;
            }
            if run >= 8 {
                assert(run_len(cs@, i as int) > 8);
                return false;
            }
            run = run + 1;
            assert(run_len(cs@, i as int) == run);
        }
        assert(tag_char_ok(cs@, i as int));
        i = i + 1;
    }
    true
}

} // verus!
