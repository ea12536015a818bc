//! Ordered key/value maps in which a key may appear more than once.

use vstd::prelude::*;
use crate::text::str_eq;

verus! {

/// The value of the first entry of `es` named `name`.
pub open spec fn first_value(es: Seq<(Seq<char>, Seq<char>)>, name: Seq<char>) -> Option<Seq<char>>
    decreases es.len(),
{
    if es.len() == 0 {
        None
    } else if es[0].0 == name {
        Some(es[0].1)
    } else {
        first_value(es.drop_first(), name)
    }
}

/// The values of all entries of `es` named `name`, in order.
pub open spec fn all_values(es: Seq<(Seq<char>, Seq<char>)>, name: Seq<char>) -> Seq<Seq<char>>
    decreases es.len(),
{
    if es.len() == 0 {
        Seq::empty()
    } else if es.last().0 == name {
        all_values(es.drop_last(), name).push(es.last().1)
    } else {
        all_values(es.drop_last(), name)
    }
}

proof fn lemma_first_value_prefix(es: Seq<(Seq<char>, Seq<char>)>, name: Seq<char>, i: int)
    requires
        0 <= i < es.len(),
        forall|j: int| 0 <= j < i ==> (#[trigger] es[j]).0 != name,
    ensures
        first_value(es, name) == first_value(es.subrange(i, es.len() as int), name),
    decreases i,
{
    if i > 0 {
        lemma_first_value_prefix(es.drop_first(), name, i - 1);
        assert(es.drop_first().subrange(i - 1, es.drop_first().len() as int) =~= es.subrange(
            i,
            es.len() as int,
        ));
    } else {
        assert(es.subrange(0, es.len() as int) =~= es);
    }
}

proof fn lemma_first_value_none(es: Seq<(Seq<char>, Seq<char>)>, name: Seq<char>)
    requires
        forall|j: int| 0 <= j < es.len() ==> (#[trigger] es[j]).0 != name,
    ensures
        first_value(es, name) is None,
    decreases es.len(),
{
    if es.len() > 0 {
        lemma_first_value_none(es.drop_first(), name);
    }
}

/// One entry of a map: a value name and its value.
#[derive(Debug, Clone, PartialEq, Eq)]
pub struct Entry {
    pub value_name: String,
    pub value: String,
}

impl View for Entry {
    type V = (Seq<char>, Seq<char>);

    open spec fn view(&self) -> (Seq<char>, Seq<char>) {
        (self.value_name@, self.value@)
    }
}

impl Entry {
    /// Make an entry.
    pub fn new(value_name: String, value: String) -> (r: Entry)
        ensures
            r@ == (value_name@, value@),
    {
        Entry { value_name, value }
    }
}

/// A key/value map which keeps its entries in order and permits repeated keys.
#[derive(Debug, Clone, PartialEq, Eq, Default)]
pub struct KeyValueMap(Vec<Entry>);

impl View for KeyValueMap {
    type V = Seq<(Seq<char>, Seq<char>)>;

    closed spec fn view(&self) -> Seq<(Seq<char>, Seq<char>)> {
        self.0@.map_values(|e: Entry| e@)
    }
}

impl KeyValueMap {
    /// An empty map.
    pub fn new() -> (r: KeyValueMap)
        ensures
            r@ == Seq::<(Seq<char>, Seq<char>)>::empty(),
    {
        let r = KeyValueMap(Vec::new());
        assert(r@ =~= Seq::<(Seq<char>, Seq<char>)>::empty());
        r
    }

    /// A map holding `entries`, in order.
    pub fn from_entries(entries: Vec<Entry>) -> (r: KeyValueMap)
        ensures
            r@ == entries@.map_values(|e: Entry| e@),
    {
        KeyValueMap(entries)
    }

    /// The value of the first entry named `value_name`.
    pub fn get(&self, value_name: &str) -> (r: Option<&str>)
        ensures
            match first_value(self@, value_name@) {
                Some(v) => r matches Some(s) && s@ == v,
                None => r is None,
            },
    {
        let mut i: usize = 0;
        while i < self.0.len()
            invariant
                i <= self.0@.len(),
                self@.len() == self.0@.len(),
                forall|j: int| 0 <= j < i ==> (#[trigger] self@[j]).0 != value_name@,
            decreases self.0.len() - i,
        {
            let e = &self.0[i];
            assert(self@[i as int] == e@);
            if str_eq(e.value_name.as_str(), value_name) {
                proof {
                    lemma_first_value_prefix(self@, value_name@, i as int);
                }
                return Some(e.value.as_str());
            }
            i = i + 1;
        }
        proof {
            lemma_first_value_none(self@, value_name@);
        }
        None
    }

    /// The values of all entries named `value_name`, in order.
    pub fn get_all(&self, value_name: &str) -> (r: Vec<&str>)
        ensures
            r@.map_values(|s: &str| s@) == all_values(self@, value_name@),
    {
        let mut out: Vec<&str> = Vec::new();
        let mut i: usize = 0;
        while i < self.0.len()
            invariant
                i <= self.0@.len(),
                self@.len() == self.0@.len(),
                out@.map_values(|s: &str| s@) == all_values(self@.subrange(0, i as int), value_name@),
            decreases self.0.len() - i,
        {
            let e = &self.0[i];
            assert(self@[i as int] == e@);
            assert(self@.subrange(0, i + 1).drop_last() =~= self@.subrange(0, i as int));
            let ghost before = out@.map_values(|s: &str| s@);
            if str_eq(e.value_name.as_str(), value_name) {
                out.push(e.value.as_str());
                assert(out@.map_values(|s: &str| s@) =~= before.push(e.value@));
            }
            i = i + 1;
        }
        assert(self@.subrange(0, self@.len() as int) =~= self@);
        out
    }

    /// Append an entry.
    pub fn push(&mut self, value_name: String, value: String)
        ensures
            final(self)@ == old(self)@.push((value_name@, value@)),
    {
        self.0.push(Entry { value_name, value });
        assert(final(self)@ =~= old(self)@.push((value_name@, value@)));
    }

    /// The number of entries.
    pub fn len(&self) -> (r: usize)
        ensures
            r == self@.len(),
    {
        self.0.len()
    }

    /// Whether the map has no entries.
    pub fn is_empty(&self) -> (r: bool)
        ensures
            r == (self@.len() == 0),
    {
        self.0.len() == 0
    }

    /// The entries, in order.
    pub fn iter(&self) -> (r: &[Entry])
        ensures
            r@.map_values(|e: Entry| e@) == self@,
    {
        self.0.as_slice()
    }

    /// Consume the map, returning its entries.
    pub fn into_entries(self) -> (r: Vec<Entry>)
        ensures
            r@.map_values(|e: Entry| e@) == self@,
    {
        self.0
    }
}

} // verus!
