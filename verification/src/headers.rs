//! The header fields of a response: a mapping from names to values that
//! remembers the order in which the names were first inserted.

use vstd::prelude::*;
use crate::text::same_text;

verus! {

/// The mathematical model of a header mapping: its fields in order, each a
/// pair of the field's name and its value.
pub type FieldSeq = Seq<(Seq<char>, Seq<char>)>;

/// No two fields of `s` have the same name.
pub open spec fn distinct_names(s: FieldSeq) -> bool {
    forall|i: int, j: int| 0 <= i < j < s.len() ==> s[i].0 != s[j].0
}

/// The value of the first field of `s` that is named `name`.
pub open spec fn lookup(s: FieldSeq, name: Seq<char>) -> Option<Seq<char>>
    decreases s.len(),
{
    if s.len() == 0 {
        None
    } else if s[0].0 == name {
        Some(s[0].1)
    } else {
        lookup(s.drop_first(), name)
    }
}

/// `s` after `name` has been given the value `value`: the first field named
/// `name` gets the new value and keeps its place; where there is none, a new
/// field is added at the end.
pub open spec fn with_field(s: FieldSeq, name: Seq<char>, value: Seq<char>) -> FieldSeq
    decreases s.len(),
{
    if s.len() == 0 {
        seq![(name, value)]
    } else if s[0].0 == name {
        seq![(name, value)] + s.drop_first()
    } else {
        seq![s[0]] + with_field(s.drop_first(), name, value)
    }
}

/// Header fields by name. No name occurs twice, and the fields stay in the
/// order in which their names were first inserted, which is the order in
/// which a response writes them.
///
/// Two mappings are equal under `==` when they hold the same fields in the
/// same order.
#[derive(Debug, PartialEq)]
pub struct Headers<'a> {
    entries: Vec<(&'a str, &'a str)>,
}

/// The model of a vector of fields.
spec fn fields_of<'a>(entries: Seq<(&'a str, &'a str)>) -> FieldSeq {
    entries.map_values(|e: (&'a str, &'a str)| (e.0@, e.1@))
}

impl<'a> View for Headers<'a> {
    type V = FieldSeq;

    closed spec fn view(&self) -> FieldSeq {
        fields_of(self.entries@)
    }
}

impl<'a> Clone for Headers<'a> {
    fn clone(&self) -> (copy: Self)
        ensures
            copy@ == self@,
    {
        proof {
            use_type_invariant(self);
        }
        let mut entries: Vec<(&'a str, &'a str)> = Vec::new();
        let mut i: usize = 0;
        while i < self.entries.len()
            invariant
                i <= self.entries.len(),
                entries@ == self.entries@.take(i as int),
            decreases self.entries.len() - i,
        {
            entries.push(self.entries[i]);
            assert(entries@ =~= self.entries@.take(i + 1));
            i += 1;
        }
        assert(entries@ =~= self.entries@);
        Headers { entries }
    }
}

impl<'a> Headers<'a> {
    #[verifier::type_invariant]
    spec fn names_are_distinct(&self) -> bool {
        distinct_names(self@)
    }

    /// A mapping without fields.
    pub fn new() -> (headers: Self)
        ensures
            headers@ == FieldSeq::empty(),
    {
        let headers = Headers { entries: Vec::new() };
        assert(headers@ =~= FieldSeq::empty());
        headers
    }

    /// The number of fields.
    pub fn len(&self) -> (n: usize)
        ensures
            n == self@.len(),
    {
        self.entries.len()
    }

    /// The field at position `index`, as its name and its value, or `None`
    /// where the mapping has no such position.
    pub fn entry(&self, index: usize) -> (field: Option<(&'a str, &'a str)>)
        ensures
            match field {
                Some((name, value)) => index < self@.len() && (name@, value@)
                    == self@[index as int],
                None => index >= self@.len(),
            },
            distinct_names(self@),
    {
        proof {
            use_type_invariant(self);
        }
        if index < self.entries.len() {
            Some(self.entries[index])
        } else {
            None
        }
    }

    /// The value of the field named `name`, if there is one.
    pub fn get(&self, name: &str) -> (value: Option<&'a str>)
        ensures
            match value {
                Some(v) => lookup(self@, name@) == Some(v@),
                None => lookup(self@, name@) is None,
            },
    {
        let mut i: usize = 0;
        assert(self@.skip(0) =~= self@);
        while i < self.entries.len()
            invariant
                i <= self.entries.len(),
                lookup(self@, name@) == lookup(self@.skip(i as int), name@),
            decreases self.entries.len() - i,
        {
            let ghost rest = self@.skip(i as int);
            assert(rest[0] == self@[i as int]);
            assert(rest.drop_first() =~= self@.skip(i + 1));
            if same_text(self.entries[i].0, name) {
                return Some(self.entries[i].1);
            }
            i += 1;
        }
        None
    }

    /// Gives the field named `name` the value `value`, and returns the value
    /// that the name had before. A name that the mapping already holds keeps
    /// its place; a new name goes to the end.
    pub fn insert(&mut self, name: &'a str, value: &'a str) -> (previous: Option<&'a str>)
        ensures
            final(self)@ == with_field(old(self)@, name@, value@),
            match previous {
                Some(v) => lookup(old(self)@, name@) == Some(v@),
                None => lookup(old(self)@, name@) is None,
            },
            distinct_names(final(self)@),
    {
        let ghost before = self@;
        proof {
            use_type_invariant(&*self);
            lemma_with_field_distinct(before, name@, value@);
            assert(before.skip(0) =~= before);
            assert(before.take(0) + with_field(before, name@, value@) =~= with_field(
                before,
                name@,
                value@,
            ));
        }
        let mut entries: Vec<(&'a str, &'a str)> = Vec::new();
        std::mem::swap(&mut entries, &mut self.entries);
        let mut i: usize = 0;
        while i < entries.len()
            invariant
                i <= entries.len(),
                fields_of(entries@) == before,
                before == old(self)@,
                distinct_names(with_field(before, name@, value@)),
                lookup(before, name@) == lookup(before.skip(i as int), name@),
                with_field(before, name@, value@) == before.take(i as int) + with_field(
                    before.skip(i as int),
                    name@,
                    value@,
                ),
            decreases entries.len() - i,
        {
            let ghost rest = before.skip(i as int);
            assert(rest[0] == before[i as int]);
            assert(rest.drop_first() =~= before.skip(i + 1));
            assert(before.take(i + 1) =~= before.take(i as int) + seq![before[i as int]]);
            if same_text(entries[i].0, name) {
                let previous = entries[i].1;
                entries[i] = (name, value);
                assert(fields_of(entries@) =~= before.take(i as int) + (seq![(name@, value@)]
                    + rest.drop_first()));
                self.entries = entries;
                return Some(previous);
            }
            assert(before.take(i as int) + (seq![rest[0]] + with_field(
                rest.drop_first(),
                name@,
                value@,
            )) =~= before.take(i + 1) + with_field(rest.drop_first(), name@, value@));
            i += 1;
        }
        entries.push((name, value));
        assert(fields_of(entries@) =~= before.take(i as int) + seq![(name@, value@)]);
        self.entries = entries;
        None
    }
}

/// Setting a field changes no name but, possibly, adds `name` at the end.
pub proof fn lemma_with_field_names(s: FieldSeq, name: Seq<char>, value: Seq<char>)
    ensures
        s.len() <= with_field(s, name, value).len() <= s.len() + 1,
        forall|i: int| 0 <= i < s.len() ==> (#[trigger] with_field(s, name, value)[i]).0 == s[i].0,
        with_field(s, name, value).len() == s.len() + 1 ==> {
            &&& with_field(s, name, value).last().0 == name
            &&& lookup(s, name) is None
            &&& forall|i: int| 0 <= i < s.len() ==> (#[trigger] s[i]).0 != name
        },
        with_field(s, name, value).len() == s.len() ==> lookup(s, name) is Some,
    decreases s.len(),
{
    if s.len() != 0 && s[0].0 != name {
        let rest = s.drop_first();
        lemma_with_field_names(rest, name, value);
        let w = with_field(s, name, value);
        assert forall|i: int| 0 <= i < s.len() implies (#[trigger] w[i]).0 == s[i].0 by {
            if i > 0 {
                assert(w[i] == with_field(rest, name, value)[i - 1]);
                assert(rest[i - 1] == s[i]);
            }
        }
        if w.len() == s.len() + 1 {
            assert forall|i: int| 0 <= i < s.len() implies (#[trigger] s[i]).0 != name by {
                if i > 0 {
                    assert(rest[i - 1] == s[i]);
                }
            }
        }
    }
}

/// Setting a field of a mapping with distinct names leaves the names distinct.
pub proof fn lemma_with_field_distinct(s: FieldSeq, name: Seq<char>, value: Seq<char>)
    requires
        distinct_names(s),
    ensures
        distinct_names(with_field(s, name, value)),
{
    lemma_with_field_names(s, name, value);
    let w = with_field(s, name, value);
    assert forall|i: int, j: int| 0 <= i < j < w.len() implies w[i].0 != w[j].0 by {
        if j < s.len() {
            assert(w[i].0 == s[i].0);
            assert(w[j].0 == s[j].0);
        } else {
            assert(w[i].0 == s[i].0);
        }
    }
}

/// After `name` has been given a value, looking `name` up finds that value,
/// and every other name is found as before: setting a field acts on the
/// mapping as insertion acts on a map.
pub proof fn lemma_lookup_with_field(
    s: FieldSeq,
    name: Seq<char>,
    value: Seq<char>,
    other: Seq<char>,
)
    ensures
        lookup(with_field(s, name, value), other) == if other == name {
            Some(value)
        } else {
            lookup(s, other)
        },
    decreases s.len(),
{
    let w = with_field(s, name, value);
    if s.len() == 0 {
        assert(w.drop_first() =~= s);
    } else if s[0].0 == name {
        assert(w.drop_first() =~= s.drop_first());
    } else {
        lemma_lookup_with_field(s.drop_first(), name, value, other);
        assert(w.drop_first() =~= with_field(s.drop_first(), name, value));
    }
}

} // verus!
