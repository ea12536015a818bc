//! Whitespace-delimited item lists, where double quotes keep internal whitespace together.

use vstd::prelude::*;
use crate::text::{
    ascii_space, chars_of, contains, is_ascii_space, is_white_space, push_char, push_str,
    substring, trim, trim_bounds, white_space,
};

verus! {

/// The items that remain to be found in `s` from position `i`, in the scanner state given by
/// `quoted` (inside double quotes) and `start` (where the pending item began), after `acc`.
/// Outside quotes a run of characters other than ASCII whitespace is an item, trimmed; a
/// double quote ends any pending item (which is kept, trimmed, like one that whitespace
/// ends) and starts a quoted item, which runs to the next double quote as it stands. An
/// unclosed quote is an error.
pub open spec fn scan_items(
    s: Seq<char>,
    i: int,
    quoted: bool,
    start: int,
    acc: Seq<Seq<char>>,
) -> Option<Seq<Seq<char>>>
    decreases s.len() - i,
{
    if i < 0 || i >= s.len() {
        if quoted {
            None
        } else {
            Some(acc)
        }
    } else if quoted {
        if s[i] == '"' {
            scan_items(s, i + 1, false, i + 1, acc.push(s.subrange(start, i)))
        } else {
            scan_items(s, i + 1, true, start, acc)
        }
    } else if s[i] == '"' {
        let t = trim(s.subrange(start, i));
        scan_items(s, i + 1, true, i + 1, if t.len() > 0 { acc.push(t) } else { acc })
    } else if is_ascii_space(s[i]) || i + 1 == s.len() {
        let end = if is_ascii_space(s[i]) {
            i
        } else {
            i + 1
        };
        let t = trim(s.subrange(start, end));
        scan_items(s, i + 1, false, i + 1, if t.len() > 0 { acc.push(t) } else { acc })
    } else {
        scan_items(s, i + 1, false, start, acc)
    }
}

/// The items that `s` holds, or `None` where a quote is left open.
pub open spec fn parse_items(s: Seq<char>) -> Option<Seq<Seq<char>>> {
    scan_items(s, 0, false, 0, Seq::empty())
}

/// Whether an item must be written in double quotes to read back as itself: it is empty,
/// holds ASCII whitespace, or starts or ends with whitespace.
pub open spec fn needs_quotes(t: Seq<char>) -> bool {
    t.len() == 0 || (exists|j: int| 0 <= j < t.len() && is_ascii_space(#[trigger] t[j]))
        || is_white_space(t[0]) || is_white_space(t.last())
}

/// How one item is written: in double quotes where it needs them.
pub open spec fn format_item(t: Seq<char>) -> Seq<char> {
    if needs_quotes(t) {
        seq!['"'] + t + seq!['"']
    } else {
        t
    }
}

/// How a list of items is written: each item formatted, separated by single spaces.
pub open spec fn format_items(items: Seq<Seq<char>>) -> Seq<char>
    decreases items.len(),
{
    if items.len() == 0 {
        Seq::empty()
    } else if items.len() == 1 {
        format_item(items[0])
    } else {
        format_items(items.drop_last()) + seq![' '] + format_item(items.last())
    }
}

/// A string which does not contain the double quote character.
#[derive(Debug, Clone, PartialEq, Eq)]
pub struct Item(String);

/// A list of `Item`s, written as whitespace-delimited text.
#[derive(Debug, Clone, PartialEq, Eq, Default)]
pub struct Items(Vec<Item>);

/// The error returned when item text contains an unterminated quoted section.
#[derive(Debug, Copy, Clone, PartialEq, Eq, Structural)]
pub struct UnclosedQuotesError;

/// The error returned when an `Item` would contain a double quote.
#[derive(Debug, Copy, Clone, PartialEq, Eq, Structural)]
pub struct InvalidItemError;

impl View for Item {
    type V = Seq<char>;

    closed spec fn view(&self) -> Seq<char> {
        self.0@
    }
}

impl View for Items {
    type V = Seq<Seq<char>>;

    closed spec fn view(&self) -> Seq<Seq<char>> {
        self.0@.map_values(|it: Item| it@)
    }
}

/// Whether `t` may be an item.
pub open spec fn is_item(t: Seq<char>) -> bool {
    !contains(t, '"')
}

impl Item {
    pub open spec fn wf(&self) -> bool {
        is_item(self@)
    }

    /// Validate `value` as an item.
    pub fn new(value: String) -> (r: Result<Item, InvalidItemError>)
        ensures
            is_item(value@) <==> r is Ok,
            r matches Ok(it) ==> it@ == value@ && it.wf(),
    {
        let cs = chars_of(value.as_str());
        let mut i: usize = 0;
        while i < cs.len()
            invariant
                cs@ == value@,
                i <= cs@.len(),
                forall|j: int| 0 <= j < i ==> cs@[j] != '"',
            decreases cs.len() - i,
        {
            if cs[i] == '"' {
                return Err(InvalidItemError);
            }
            i = i + 1;
        }
        Ok(Item(value))
    }

    /// The item as a string slice.
    pub fn as_str(&self) -> (r: &str)
        ensures
            r@ == self@,
    {
        self.0.as_str()
    }

    /// Consume the item, returning its string.
    pub fn into_inner(self) -> (r: String)
        ensures
            r@ == self@,
    {
        self.0
    }
}

impl Items {
    pub open spec fn wf(&self) -> bool {
        forall|i: int| 0 <= i < self@.len() ==> is_item(#[trigger] self@[i])
    }

    /// Make a list from `items`.
    pub fn new(items: Vec<Item>) -> (r: Items)
        ensures
            r@ == items@.map_values(|it: Item| it@),
    {
        Items(items)
    }

    /// The empty list.
    pub fn empty() -> (r: Items)
        ensures
            r@ == Seq::<Seq<char>>::empty(),
    {
        let r = Items(Vec::new());
        assert(r@ =~= Seq::<Seq<char>>::empty());
        r
    }

    /// The items as a slice.
    pub fn as_slice(&self) -> (r: &[Item])
        ensures
            r@.map_values(|it: Item| it@) == self@,
    {
        self.0.as_slice()
    }

    /// Consume the list, returning its items.
    pub fn into_inner(self) -> (r: Vec<Item>)
        ensures
            r@.map_values(|it: Item| it@) == self@,
    {
        self.0
    }

    /// The number of items.
    pub fn len(&self) -> (r: usize)
        ensures
            r == self@.len(),
    {
        self.0.len()
    }

    /// Whether the list is empty.
    pub fn is_empty(&self) -> (r: bool)
        ensures
            r == (self@.len() == 0),
    {
        self.0.len() == 0
    }

    /// Validate each string as an item.
    pub fn from_strings(values: Vec<String>) -> (r: Result<Items, InvalidItemError>)
        ensures
            (forall|i: int| 0 <= i < values@.len() ==> is_item(#[trigger] values@[i]@)) <==> r is Ok,
            r matches Ok(items) ==> items@ == values@.map_values(|v: String| v@) && items.wf(),
    {
        let mut out: Vec<Item> = Vec::new();
        let mut i: usize = 0;
        let n = values.len();
        let ghost orig = values@;
        let mut rest = crate::vecs::reversed(values);
        while i < n
            invariant
                n == orig.len(),
                orig == values@,
                i <= n,
                rest@.len() == n - i,
                forall|j: int| 0 <= j < n - i ==> #[trigger] rest@[j] == orig[n - 1 - j],
                out@.len() == i,
                forall|j: int| 0 <= j < i ==> (#[trigger] out@[j])@ == orig[j]@ && is_item(
                    out@[j]@,
                ),
            decreases n - i,
        {
            let v = rest.pop().unwrap();
            match Item::new(v) {
                Ok(it) => out.push(it),
                Err(e) => {
                    assert(!is_item(orig[i as int]@));
                    return Err(e);
                },
            }
            i = i + 1;
        }
        let r = Items(out);
        assert(r@ =~= orig.map_values(|v: String| v@));
        assert forall|j: int| 0 <= j < orig.len() implies is_item(#[trigger] orig[j]@) by {
            assert(out@[j]@ == orig[j]@);
        }
        Ok(r)
    }

    /// Parse whitespace-delimited items, where double quotes keep whitespace together.
    pub fn parse(s: &str) -> (r: Result<Items, UnclosedQuotesError>)
        ensures
            match parse_items(s@) {
                Some(items) => r matches Ok(v) && v@ == items && v.wf(),
                None => r is Err,
            },
    {
        let cs = chars_of(s);
        let n = cs.len();
        let mut items: Vec<Item> = Vec::new();
        let mut quoted = false;
        let mut start: usize = 0;
        let mut i: usize = 0;
        assert(items@.map_values(|it: Item| it@) =~= Seq::<Seq<char>>::empty());
        while i < n
            invariant
                cs@ == s@,
                n == cs@.len(),
                start <= i <= n,
                scan_items(cs@, i as int, quoted, start as int, items@.map_values(|it: Item| it@))
                    == parse_items(s@),
                forall|j: int| 0 <= j < items@.len() ==> is_item((#[trigger] items@[j])@),
                forall|j: int| start <= j < i ==> cs@[j] != '"',
            decreases n - i,
        {
            let ghost acc = items@.map_values(|it: Item| it@);
            let c = cs[i];
            if quoted {
                if c == '"' {
                    let it = Item(substring(&cs, start, i));
                    proof {
                        assert forall|k: int| 0 <= k < it@.len() implies it@[k] != '"' by {
                            assert(it@[k] == cs@[start + k]);
                        }
                    }
                    items.push(it);
                    assert(items@.map_values(|it: Item| it@) =~= acc.push(
                        cs@.subrange(start as int, i as int),
                    ));
                    start = i + 1;
                    quoted = false;
                }
            } else if c == '"' {
                let (a, b) = trim_bounds(&cs, start, i);
                if a < b {
                    let it = Item(substring(&cs, a, b));
                    proof {
                        assert forall|k: int| 0 <= k < it@.len() implies it@[k] != '"' by {
                            assert(it@[k] == cs@[a + k]);
                        }
                    }
                    items.push(it);
                    assert(items@.map_values(|it: Item| it@) =~= acc.push(
                        trim(cs@.subrange(start as int, i as int)),
                    ));
                }
                quoted = true;
                start = i + 1;
            } else if ascii_space(c) || i + 1 == n {
                let end = if ascii_space(c) {
                    i
                } else {
                    i + 1
                };
                let (a, b) = trim_bounds(&cs, start, end);
                if a < b {
                    let it = Item(substring(&cs, a, b));
                    proof {
                        assert forall|k: int| 0 <= k < it@.len() implies it@[k] != '"' by {
                            assert(it@[k] == cs@[a + k]);
                        }
                    }
                    items.push(it);
                    assert(items@.map_values(|it: Item| it@) =~= acc.push(
                        trim(cs@.subrange(start as int, end as int)),
                    ));
                }
                start = i + 1;
            }
            i = i + 1;
        }
        if quoted {
            Err(UnclosedQuotesError)
        } else {
            Ok(Items(items))
        }
    }

    /// Write the items separated by single spaces, quoting each item that is empty, holds
    /// ASCII whitespace, or starts or ends with whitespace.
    pub fn to_string(&self) -> (r: String)
        ensures
            r@ == format_items(self@),
    {
        let mut out = String::new();
        let mut i: usize = 0;
        while i < self.0.len()
            invariant
                i <= self@.len(),
                self@.len() == self.0@.len(),
                out@ == format_items(self@.subrange(0, i as int)),
            decreases self.0.len() - i,
        {
            let t = self.0[i].as_str();
            let ghost before = out@;
            if i > 0 {
                push_char(&mut out, ' ');
            }
            if item_needs_quotes(t) {
                push_char(&mut out, '"');
                push_str(&mut out, t);
                push_char(&mut out, '"');
            } else {
                push_str(&mut out, t);
            }
            proof {
                let p = self@.subrange(0, i + 1);
                let sep = if i > 0 { seq![' '] } else { Seq::<char>::empty() };
                assert(out@ =~= before + sep + format_item(t@));
                assert(p.drop_last() =~= self@.subrange(0, i as int));
                assert(self@[i as int] == self.0@[i as int]@);
                if i == 0 {
                    assert(format_items(self@.subrange(0, 0)) =~= Seq::<char>::empty());
                }
            }
            i = i + 1;
        }
        assert(self@.subrange(0, self@.len() as int) =~= self@);
        out
    }
}

/// Whether an item must be quoted when written.
fn item_needs_quotes(t: &str) -> (r: bool)
    ensures
        r == needs_quotes(t@),
{
    let cs = chars_of(t);
    let n = cs.len();
    if n == 0 || white_space(cs[0]) || white_space(cs[n - 1]) {
        return true;
    }
    let mut i: usize = 0;
    while i < n
        invariant
            cs@ == t@,
            n == cs@.len(),
            i <= n,
            forall|j: int| 0 <= j < i ==> !is_ascii_space(#[trigger] cs@[j]),
        decreases n - i,
    {
        if ascii_space(cs[i]) {
            return true;
        }
        i = i + 1;
    }
    false
}

impl std::str::FromStr for Items {
    type Err = UnclosedQuotesError;

    fn from_str(s: &str) -> Result<Items, UnclosedQuotesError> {
        Items::parse(s)
    }
}

proof fn lemma_scan_quoted(s: Seq<char>, j: int, start: int, e: int, acc: Seq<Seq<char>>)
    requires
        0 <= start <= j <= e < s.len(),
        forall|k: int| start <= k < e ==> #[trigger] s[k] != '"',
        s[e] == '"',
    ensures
        scan_items(s, j, true, start, acc) == scan_items(s, e + 1, false, e + 1, acc.push(s.subrange(start, e))),
    decreases e - j,
{
    if j < e {
        lemma_scan_quoted(s, j + 1, start, e, acc);
    }
}

proof fn lemma_scan_plain(s: Seq<char>, j: int, start: int, e: int, acc: Seq<Seq<char>>)
    requires
        0 <= start <= j <= e <= s.len(),
        j < e,
        forall|k: int| start <= k < e ==> #[trigger] s[k] != '"' && !is_ascii_space(s[k]),
        e < s.len() ==> is_ascii_space(s[e]),
        trim(s.subrange(start, e)).len() > 0,
    ensures
        e < s.len() ==> scan_items(s, j, false, start, acc) == scan_items(s, e + 1, false, e + 1, acc.push(trim(s.subrange(start, e)))),
        e == s.len() ==> scan_items(s, j, false, start, acc) == Some(acc.push(trim(s.subrange(start, e)))),
    decreases e - j,
{
    let t = trim(s.subrange(start, e));
    if j + 1 < e {
        lemma_scan_plain(s, j + 1, start, e, acc);
    } else if e < s.len() {
        assert(scan_items(s, j, false, start, acc) == scan_items(s, j + 1, false, start, acc));
        assert(scan_items(s, j + 1, false, start, acc) == scan_items(s, e + 1, false, e + 1, acc.push(t)));
    } else {
        assert(scan_items(s, j + 1, false, j + 1, acc.push(t)) == Some(acc.push(t)));
        assert(scan_items(s, j, false, start, acc) == scan_items(s, j + 1, false, j + 1, acc.push(t)));
    }
}

/// Reading one written item, followed by a space or by the end of the text.
proof fn lemma_scan_item(s: Seq<char>, i: int, t: Seq<char>, acc: Seq<Seq<char>>)
    requires
        is_item(t),
        0 <= i,
        i + format_item(t).len() <= s.len(),
        s.subrange(i, i + format_item(t).len()) == format_item(t),
        i + format_item(t).len() < s.len() ==> s[i + format_item(t).len()] == ' ',
    ensures
        i + format_item(t).len() < s.len() ==> scan_items(s, i, false, i, acc) == scan_items(
            s,
            i + format_item(t).len() + 1,
            false,
            i + format_item(t).len() + 1,
            acc.push(t),
        ),
        i + format_item(t).len() == s.len() ==> scan_items(s, i, false, i, acc) == Some(acc.push(t)),
{
    let f = format_item(t);
    let e = i + f.len();
    if needs_quotes(t) {
        assert(s[i] == f[0]);
        assert(s.subrange(i, i) =~= Seq::<char>::empty());
        assert(trim(Seq::<char>::empty()) =~= Seq::<char>::empty());
        assert forall|k: int| i + 1 <= k < e - 1 implies #[trigger] s[k] != '"' by {
            assert(s[k] == f[k - i]);
            assert(f[k - i] == t[k - i - 1]);
        }
        assert(s[e - 1] == f[f.len() - 1]);
        lemma_scan_quoted(s, i + 1, i + 1, e - 1, acc);
        assert(s.subrange(i + 1, e - 1) =~= t) by {
            assert forall|k: int| 0 <= k < t.len() implies s.subrange(i + 1, e - 1)[k] == t[k] by {
                assert(s[i + 1 + k] == f[k + 1]);
            }
        }
        if e < s.len() {
            assert(is_ascii_space(s[e]));
            assert(s.subrange(e, e) =~= Seq::<char>::empty());
            assert(trim(Seq::<char>::empty()) =~= Seq::<char>::empty());
        }
    } else {
        assert(f == t);
        assert(s.subrange(i, e) =~= t);
        assert(trim(t) == t);
        assert forall|k: int| i <= k < e implies #[trigger] s[k] != '"' && !is_ascii_space(s[k]) by {
            assert(s[k] == t[k - i]);
        }
        lemma_scan_plain(s, i, i, e, acc);
    }
}

proof fn lemma_format_items_front(items: Seq<Seq<char>>)
    requires
        items.len() >= 2,
    ensures
        format_items(items) == format_item(items[0]) + seq![' '] + format_items(items.drop_first()),
    decreases items.len(),
{
    let a = format_item(items[0]);
    if items.len() > 2 {
        lemma_format_items_front(items.drop_last());
        assert(items.drop_last().drop_first() =~= items.drop_first().drop_last());
        assert(items.drop_last()[0] == items[0]);
        assert(items.drop_first().last() == items.last());
        let m = format_items(items.drop_first().drop_last());
        let z = format_item(items.last());
        assert(format_items(items.drop_last()) == a + seq![' '] + m);
        assert(format_items(items.drop_first()) == m + seq![' '] + z);
        assert(format_items(items) == format_items(items.drop_last()) + seq![' '] + z);
        assert(format_items(items) =~= a + seq![' '] + format_items(items.drop_first()));
    } else {
        assert(items.drop_last().len() == 1);
        assert(items.drop_first().len() == 1);
        assert(items.drop_first()[0] == items.last());
        assert(items.drop_last()[0] == items[0]);
        assert(format_items(items.drop_last()) == a);
        assert(format_items(items.drop_first()) == format_item(items.last()));
    }
}

proof fn lemma_scan_items_rest(s: Seq<char>, i: int, rest: Seq<Seq<char>>, acc: Seq<Seq<char>>)
    requires
        rest.len() >= 1,
        forall|k: int| 0 <= k < rest.len() ==> is_item(#[trigger] rest[k]),
        0 <= i <= s.len(),
        s.subrange(i, s.len() as int) == format_items(rest),
    ensures
        scan_items(s, i, false, i, acc) == Some(acc + rest),
    decreases rest.len(),
{
    let f = format_item(rest[0]);
    if rest.len() == 1 {
        assert(format_items(rest) == f);
        assert(s.subrange(i, i + f.len()) =~= f);
        lemma_scan_item(s, i, rest[0], acc);
        assert(acc.push(rest[0]) =~= acc + rest);
    } else {
        lemma_format_items_front(rest);
        let tail = format_items(rest.drop_first());
        assert(s.subrange(i, s.len() as int) == f + seq![' '] + tail);
        assert(i + f.len() < s.len());
        assert(s.subrange(i, i + f.len()) =~= f) by {
            assert forall|k: int| 0 <= k < f.len() implies s.subrange(i, i + f.len())[k] == f[k] by {
                assert(s[i + k] == s.subrange(i, s.len() as int)[k]);
            }
        }
        assert(s[i + f.len()] == s.subrange(i, s.len() as int)[f.len() as int]);
        lemma_scan_item(s, i, rest[0], acc);
        let j = i + f.len() + 1;
        assert(s.subrange(j, s.len() as int) =~= tail) by {
            assert forall|k: int| 0 <= k < tail.len() implies s.subrange(j, s.len() as int)[k] == tail[k] by {
                assert(s[j + k] == s.subrange(i, s.len() as int)[f.len() + 1 + k]);
            }
        }
        assert forall|k: int| 0 <= k < rest.drop_first().len() implies is_item(#[trigger] rest.drop_first()[k]) by {
            assert(rest.drop_first()[k] == rest[k + 1]);
        }
        lemma_scan_items_rest(s, j, rest.drop_first(), acc.push(rest[0]));
        assert(acc.push(rest[0]) + rest.drop_first() =~= acc + rest);
    }
}

/// Writing a list of items and parsing the text gives the same items back, for every list
/// of items (strings without a double quote).
pub proof fn lemma_items_round_trip(items: Seq<Seq<char>>)
    requires
        forall|k: int| 0 <= k < items.len() ==> is_item(#[trigger] items[k]),
    ensures
        parse_items(format_items(items)) == Some(items),
{
    let s = format_items(items);
    if items.len() == 0 {
        assert(s =~= Seq::<char>::empty());
    } else {
        assert(s.subrange(0, s.len() as int) =~= s);
        lemma_scan_items_rest(s, 0, items, Seq::empty());
        assert(Seq::<Seq<char>>::empty() + items =~= items);
    }
}

} // verus!
