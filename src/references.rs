//! References to earlier alerts: whitespace-separated `sender,identifier,sent` triples.

use vstd::prelude::*;
use crate::datetime::{datetime_of, datetime_text, is_stamp_char, lemma_datetime_round_trip, DateTime, DateTimeParseError};
use crate::id::{id_outcome, is_valid_id, Id, InvalidIdError};
use crate::text::{
    is_white_space, lemma_first_of, lemma_words_append, lemma_words_tail, words_scan, chars_of, contains, find_char, first_of, push_char, push_str, slice_chars, string_of,
    substring, word_bounds, words,
};

verus! {

/// The three comma-separated parts of `t`, where it has exactly three.
pub open spec fn reference_parts(t: Seq<char>) -> Option<(Seq<char>, Seq<char>, Seq<char>)> {
    match first_of(t, ',') {
        None => None,
        Some(k1) => {
            let rest = t.subrange(k1 + 1, t.len() as int);
            match first_of(rest, ',') {
                None => None,
                Some(k2) => {
                    let last = rest.subrange(k2 + 1, rest.len() as int);
                    if contains(last, ',') {
                        None
                    } else {
                        Some((t.subrange(0, k1), rest.subrange(0, k2), last))
                    }
                },
            }
        },
    }
}

/// The error returned when a reference is invalid.
#[derive(Debug, Copy, Clone, PartialEq, Eq, Structural)]
pub enum ReferenceError {
    /// The reference is not three comma-separated parts.
    Format,
    /// The sender is not a valid identifier.
    Sender(InvalidIdError),
    /// The identifier is not a valid identifier.
    Identifier(InvalidIdError),
    /// The sent timestamp is invalid.
    Sent(DateTimeParseError),
}

/// What reading `t` as one reference gives: its sender, identifier and timestamp, or the
/// first error among its parts.
pub open spec fn reference_outcome(t: Seq<char>) -> Result<
    (Seq<char>, Seq<char>, DateTime),
    ReferenceError,
> {
    match reference_parts(t) {
        None => Err(ReferenceError::Format),
        Some((a, b, c)) => match (id_outcome(a), id_outcome(b), datetime_of(c)) {
            (Err(e), _, _) => Err(ReferenceError::Sender(e)),
            (_, Err(e), _) => Err(ReferenceError::Identifier(e)),
            (_, _, None) => Err(ReferenceError::Sent(DateTimeParseError)),
            (Ok(x), Ok(y), Some(d)) => Ok((x, y, d)),
        },
    }
}

/// A reference to an earlier alert.
#[derive(Debug, Clone, PartialEq, Eq)]
pub struct Reference {
    pub sender: Id,
    pub identifier: Id,
    pub sent: DateTime,
}

impl View for Reference {
    type V = (Seq<char>, Seq<char>, DateTime);

    open spec fn view(&self) -> (Seq<char>, Seq<char>, DateTime) {
        (self.sender@, self.identifier@, self.sent)
    }
}

/// How a reference is written.
pub open spec fn reference_text(r: (Seq<char>, Seq<char>, DateTime)) -> Seq<char> {
    r.0 + seq![','] + r.1 + seq![','] + datetime_text(r.2)
}

/// How a list of references is written: separated by single spaces.
pub open spec fn references_text(rs: Seq<(Seq<char>, Seq<char>, DateTime)>) -> Seq<char>
    decreases rs.len(),
{
    if rs.len() == 0 {
        Seq::empty()
    } else if rs.len() == 1 {
        reference_text(rs[0])
    } else {
        references_text(rs.drop_last()) + seq![' '] + reference_text(rs.last())
    }
}

impl Reference {
    pub open spec fn wf(&self) -> bool {
        self.sender.wf() && self.identifier.wf() && self.sent.wf()
    }

    /// Parse `sender,identifier,sent`.
    pub fn parse_chars(t: &Vec<char>) -> (r: Result<Reference, ReferenceError>)
        ensures
            match reference_outcome(t@) {
                Ok(v) => r matches Ok(x) && x@ == v && x.wf(),
                Err(e) => r == Err::<Reference, ReferenceError>(e),
            },
    {
        let n = t.len();
        let k1 = match find_char(t, ',') {
            None => {
                return Err(ReferenceError::Format);
            },
            Some(k) => k,
        };
        let rest = slice_chars(t, k1 + 1, n);
        let k2 = match find_char(&rest, ',') {
            None => {
                return Err(ReferenceError::Format);
            },
            Some(k) => k,
        };
        let last = slice_chars(&rest, k2 + 1, rest.len());
        if find_char(&last, ',').is_some() {
            return Err(ReferenceError::Format);
        }
        let sender = Id::new(substring(t, 0, k1));
        let identifier = Id::new(substring(&rest, 0, k2));
        let sent = DateTime::parse(string_of(last.as_slice()).as_str());
        match (sender, identifier, sent) {
            (Err(e), _, _) => Err(ReferenceError::Sender(e)),
            (_, Err(e), _) => Err(ReferenceError::Identifier(e)),
            (_, _, Err(_)) => Err(ReferenceError::Sent(DateTimeParseError)),
            (Ok(sender), Ok(identifier), Ok(sent)) => Ok(Reference { sender, identifier, sent }),
        }
    }

    /// Append `sender,identifier,sent`.
    pub fn push_text(&self, out: &mut String)
        requires
            self.sent.wf(),
        ensures
            final(out)@ == old(out)@ + reference_text(self@),
    {
        push_str(out, self.sender.as_str());
        push_char(out, ',');
        push_str(out, self.identifier.as_str());
        push_char(out, ',');
        let sent = self.sent.to_string();
        push_str(out, sent.as_str());
        assert(final(out)@ =~= old(out)@ + reference_text(self@));
    }
}

/// A list of references to earlier alerts.
#[derive(Debug, Clone, PartialEq, Eq)]
pub struct References(Vec<Reference>);

impl View for References {
    type V = Seq<(Seq<char>, Seq<char>, DateTime)>;

    closed spec fn view(&self) -> Seq<(Seq<char>, Seq<char>, DateTime)> {
        self.0@.map_values(|r: Reference| r@)
    }
}

impl References {
    pub closed spec fn wf(&self) -> bool {
        forall|i: int| 0 <= i < self.0@.len() ==> (#[trigger] self.0@[i]).wf()
    }

    /// A list holding `references`, in order.
    pub fn new(references: Vec<Reference>) -> (r: References)
        ensures
            r@ == references@.map_values(|x: Reference| x@),
            (forall|i: int| 0 <= i < references@.len() ==> (#[trigger] references@[i]).wf()) ==> r.wf(),
    {
        References(references)
    }

    /// Consume the list, returning its references.
    pub fn into_inner(self) -> (r: Vec<Reference>)
        ensures
            r@.map_values(|x: Reference| x@) == self@,
    {
        self.0
    }

    /// The references, as a slice.
    pub fn as_slice(&self) -> (r: &[Reference])
        ensures
            r@.map_values(|x: Reference| x@) == self@,
            self.wf() ==> forall|j: int| 0 <= j < r@.len() ==> (#[trigger] r@[j]).wf(),
    {
        self.0.as_slice()
    }

    /// The references, in order.
    pub fn iter(&self) -> (r: &[Reference])
        ensures
            r@.map_values(|x: Reference| x@) == self@,
    {
        self.0.as_slice()
    }

    /// Parse whitespace-separated references; the first invalid one is the error.
    pub fn parse(s: &str) -> (r: Result<References, ReferenceError>)
        ensures
            (forall|k: int| 0 <= k < words(s@).len() ==> (#[trigger] reference_outcome(words(s@)[k])) is Ok)
                <==> r is Ok,
            r matches Ok(v) ==> v.wf() && v@.len() == words(s@).len() && forall|k: int|
                0 <= k < v@.len() ==> reference_outcome(words(s@)[k]) == Ok::<
                    (Seq<char>, Seq<char>, DateTime),
                    ReferenceError,
                >(#[trigger] v@[k]),
            r matches Err(e) ==> exists|k: int|
                0 <= k < words(s@).len() && reference_outcome(#[trigger] words(s@)[k]) == Err::<
                    (Seq<char>, Seq<char>, DateTime),
                    ReferenceError,
                >(e) && forall|j: int| 0 <= j < k ==> (#[trigger] reference_outcome(words(s@)[j])) is Ok,
    {
        let cs = chars_of(s);
        let bounds = word_bounds(&cs);
        let ghost w = words(s@);
        let mut out: Vec<Reference> = Vec::new();
        let mut i: usize = 0;
        while i < bounds.len()
            invariant
                cs@ == s@,
                w == words(s@),
                bounds@.len() == w.len(),
                forall|k: int|
                    0 <= k < bounds@.len() ==> {
                        let (a, b) = #[trigger] bounds@[k];
                        a < b <= cs@.len() && cs@.subrange(a as int, b as int) == w[k]
                    },
                i <= bounds@.len(),
                out@.len() == i,
                forall|k: int|
                    0 <= k < i ==> reference_outcome(w[k]) == Ok::<
                        (Seq<char>, Seq<char>, DateTime),
                        ReferenceError,
                    >((#[trigger] out@[k])@) && out@[k].wf(),
            decreases bounds.len() - i,
        {
            let (a, b) = bounds[i];
            assert(bounds@[i as int] == (a, b));
            match Reference::parse_chars(&slice_chars(&cs, a, b)) {
                Ok(x) => out.push(x),
                Err(e) => {
                    assert(reference_outcome(w[i as int]) is Err);
                    assert(forall|j: int| 0 <= j < i ==> (#[trigger] reference_outcome(w[j])) is Ok) by {
                        assert forall|j: int| 0 <= j < i implies (#[trigger] reference_outcome(w[j])) is Ok by {
                            assert(reference_outcome(w[j]) == Ok::<(Seq<char>, Seq<char>, DateTime), ReferenceError>(out@[j]@));
                        }
                    }
                    return Err(e);
                },
            }
            i = i + 1;
        }
        let r = References(out);
        proof {
            assert forall|k: int| 0 <= k < w.len() implies (#[trigger] reference_outcome(w[k])) is Ok by {
                assert(reference_outcome(w[k]) == Ok::<(Seq<char>, Seq<char>, DateTime), ReferenceError>(out@[k]@));
            }
            assert forall|k: int| 0 <= k < r@.len() implies reference_outcome(w[k]) == Ok::<
                (Seq<char>, Seq<char>, DateTime),
                ReferenceError,
            >(#[trigger] r@[k]) by {
                assert(r@[k] == out@[k]@);
            }
        }
        Ok(r)
    }

    /// The references separated by single spaces.
    pub fn to_string(&self) -> (r: String)
        requires
            self.wf(),
        ensures
            r@ == references_text(self@),
    {
        let mut out = String::new();
        let mut i: usize = 0;
        while i < self.0.len()
            invariant
                self.wf(),
                i <= self@.len(),
                self@.len() == self.0@.len(),
                out@ == references_text(self@.subrange(0, i as int)),
            decreases self.0.len() - i,
        {
            let ghost before = out@;
            if i > 0 {
                push_char(&mut out, ' ');
            }
            assert(self.0@[i as int].wf());
            self.0[i].push_text(&mut out);
            proof {
                let p = self@.subrange(0, i + 1);
                assert(p.drop_last() =~= self@.subrange(0, i as int));
                assert(self@[i as int] == self.0@[i as int]@);
                if i == 0 {
                    assert(out@ =~= reference_text(p[0]));
                } else {
                    assert(out@ =~= before + seq![' '] + reference_text(p.last()));
                }
            }
            i = i + 1;
        }
        assert(self@.subrange(0, self@.len() as int) =~= self@);
        out
    }
}

/// Whether a reference's parts are valid: two identifiers and a valid timestamp.
pub open spec fn reference_valid(r: (Seq<char>, Seq<char>, DateTime)) -> bool {
    is_valid_id(r.0) && is_valid_id(r.1) && r.2.wf()
}

proof fn lemma_no_comma_in_id(s: Seq<char>)
    requires
        is_valid_id(s),
    ensures
        !contains(s, ','),
{
    if contains(s, ',') {
        let j = choose|j: int| 0 <= j < s.len() && s[j] == ',';
        assert(crate::id::is_prohibited(s[j]));
    }
}

/// Writing a valid reference and reading the text gives the same reference back, and the
/// text holds no whitespace.
pub proof fn lemma_reference_round_trip(r: (Seq<char>, Seq<char>, DateTime))
    requires
        reference_valid(r),
    ensures
        reference_outcome(reference_text(r)) == Ok::<(Seq<char>, Seq<char>, DateTime), ReferenceError>(r),
        reference_text(r).len() > 0,
        forall|j: int| 0 <= j < reference_text(r).len() ==> !is_white_space(#[trigger] reference_text(r)[j]),
{
    let (a, b, d) = r;
    let c = datetime_text(d);
    let t = reference_text(r);
    lemma_datetime_round_trip(d);
    lemma_no_comma_in_id(a);
    lemma_no_comma_in_id(b);
    assert(!contains(c, ',')) by {
        if contains(c, ',') {
            let j = choose|j: int| 0 <= j < c.len() && c[j] == ',';
            assert(is_stamp_char(c[j]));
        }
    }
    assert(t.subrange(0, a.len() as int) =~= a);
    lemma_first_of(t, ',', a.len() as int);
    let rest = t.subrange(a.len() as int + 1, t.len() as int);
    assert(rest =~= b + seq![','] + c);
    assert(rest.subrange(0, b.len() as int) =~= b);
    lemma_first_of(rest, ',', b.len() as int);
    assert(rest.subrange(b.len() as int + 1, rest.len() as int) =~= c);
    crate::id::lemma_id_outcome_valid(a);
    crate::id::lemma_id_outcome_valid(b);
    assert forall|j: int| 0 <= j < t.len() implies !is_white_space(#[trigger] t[j]) by {
        if j < a.len() {
            assert(t[j] == a[j]);
        } else if a.len() < j < a.len() + 1 + b.len() {
            assert(t[j] == b[j - a.len() - 1]);
        } else if j > a.len() + 1 + b.len() {
            assert(t[j] == c[j - a.len() - b.len() - 2]);
            assert(is_stamp_char(c[j - a.len() - b.len() - 2]));
        }
    }
}

proof fn lemma_references_words(rs: Seq<(Seq<char>, Seq<char>, DateTime)>)
    requires
        rs.len() >= 1,
        forall|k: int| 0 <= k < rs.len() ==> reference_valid(#[trigger] rs[k]),
    ensures
        words(references_text(rs)) == rs.map_values(|r: (Seq<char>, Seq<char>, DateTime)| reference_text(r)),
    decreases rs.len(),
{
    let t = references_text(rs);
    if rs.len() == 1 {
        lemma_reference_round_trip(rs[0]);
        lemma_words_tail(t, 0, 0, Seq::empty());
        assert(t.subrange(0, t.len() as int) =~= t);
        assert(rs.map_values(|r: (Seq<char>, Seq<char>, DateTime)| reference_text(r)) =~= seq![t]);
    } else {
        let x = references_text(rs.drop_last());
        let w = reference_text(rs.last());
        lemma_reference_round_trip(rs.last());
        assert forall|k: int| 0 <= k < rs.drop_last().len() implies reference_valid(#[trigger] rs.drop_last()[k]) by {
            assert(rs.drop_last()[k] == rs[k]);
        }
        lemma_references_words(rs.drop_last());
        lemma_words_append(x, w, 0, 0, Seq::empty());
        assert(rs.map_values(|r: (Seq<char>, Seq<char>, DateTime)| reference_text(r)) =~= rs.drop_last().map_values(
            |r: (Seq<char>, Seq<char>, DateTime)| reference_text(r),
        ).push(w));
    }
}

/// Writing valid references and parsing the text gives the same references back: one word
/// per reference, each reading as its reference.
pub proof fn lemma_references_round_trip(rs: Seq<(Seq<char>, Seq<char>, DateTime)>)
    requires
        forall|k: int| 0 <= k < rs.len() ==> reference_valid(#[trigger] rs[k]),
    ensures
        words(references_text(rs)).len() == rs.len(),
        forall|k: int| 0 <= k < rs.len() ==> reference_outcome(#[trigger] words(references_text(rs))[k])
            == Ok::<(Seq<char>, Seq<char>, DateTime), ReferenceError>(rs[k]),
{
    if rs.len() == 0 {
        assert(references_text(rs) =~= Seq::<char>::empty());
        assert(words(references_text(rs)) =~= Seq::<Seq<char>>::empty());
    } else {
        lemma_references_words(rs);
        assert forall|k: int| 0 <= k < rs.len() implies reference_outcome(#[trigger] words(references_text(rs))[k])
            == Ok::<(Seq<char>, Seq<char>, DateTime), ReferenceError>(rs[k]) by {
            lemma_reference_round_trip(rs[k]);
        }
    }
}

/// A list of references is valid exactly when each of its references is.
pub proof fn lemma_references_wf(rs: References)
    ensures
        rs.wf() <==> forall|k: int| 0 <= k < rs@.len() ==> reference_valid(#[trigger] rs@[k]),
{
    if rs.wf() {
        assert forall|k: int| 0 <= k < rs@.len() implies reference_valid(#[trigger] rs@[k]) by {
            assert(rs.0@[k].wf());
            assert(rs@[k] == rs.0@[k]@);
        }
    }
    if forall|k: int| 0 <= k < rs@.len() ==> reference_valid(#[trigger] rs@[k]) {
        assert forall|i: int| 0 <= i < rs.0@.len() implies (#[trigger] rs.0@[i]).wf() by {
            assert(rs@[i] == rs.0@[i]@);
            assert(reference_valid(rs@[i]));
        }
    }
}

} // verus!
