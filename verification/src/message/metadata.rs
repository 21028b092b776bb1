//! Additional fields of a message: names with their values, each name once,
//! in the order in which the names were first set.

use vstd::prelude::*;

verus! {

/// The model of a set of fields: pairs of name and value.
pub type Entries = Seq<(Seq<char>, Seq<char>)>;

/// No name occurs twice.
pub open spec fn distinct_keys(entries: Entries) -> bool {
    forall|i: int, j: int| 0 <= i < j < entries.len() ==> entries[i].0 != entries[j].0
}

/// Some entry has this name.
pub open spec fn has_key(entries: Entries, key: Seq<char>) -> bool {
    exists|i: int| 0 <= i < entries.len() && entries[i].0 == key
}

/// The place of an entry with this name, where there is one.
pub open spec fn index_of(entries: Entries, key: Seq<char>) -> int {
    choose|i: int| 0 <= i < entries.len() && entries[i].0 == key
}

/// The value under a name.
pub open spec fn lookup(entries: Entries, key: Seq<char>) -> Option<Seq<char>> {
    if has_key(entries, key) {
        Some(entries[index_of(entries, key)].1)
    } else {
        None
    }
}

/// The entries after a name was set: its value replaced in place where the
/// name was there, else the pair added at the end.
pub open spec fn with_entry(entries: Entries, key: Seq<char>, value: Seq<char>) -> Entries {
    if has_key(entries, key) {
        entries.update(index_of(entries, key), (key, value))
    } else {
        entries.push((key, value))
    }
}

/// Among distinct names, an entry's place is the place of its name.
pub proof fn index_of_is_unique(entries: Entries, i: int)
    requires
        distinct_keys(entries),
        0 <= i < entries.len(),
    ensures
        has_key(entries, entries[i].0),
        index_of(entries, entries[i].0) == i,
        lookup(entries, entries[i].0) == Some(entries[i].1),
{
    let j = index_of(entries, entries[i].0);
    assert(0 <= j < entries.len() && entries[j].0 == entries[i].0);
}

/// Setting a name keeps the names distinct, makes its value the one looked
/// up, and leaves every other name as it was.
pub proof fn with_entry_sets_one_key(entries: Entries, key: Seq<char>, value: Seq<char>, other: Seq<char>)
    requires
        distinct_keys(entries),
    ensures
        distinct_keys(with_entry(entries, key, value)),
        lookup(with_entry(entries, key, value), key) == Some(value),
        other != key ==> lookup(with_entry(entries, key, value), other) == lookup(entries, other),
        other != key ==> has_key(with_entry(entries, key, value), other) == has_key(entries, other),
{
    let after = with_entry(entries, key, value);
    let k = if has_key(entries, key) {
        index_of(entries, key)
    } else {
        entries.len() as int
    };
    assert(after.len() >= entries.len());
    assert(forall|i: int| 0 <= i < entries.len() && i != k ==> after[i] == entries[i]);
    assert(after[k] == (key, value));
    assert(forall|i: int, j: int| 0 <= i < j < after.len() ==> after[i].0 != after[j].0) by {
        assert(forall|i: int| 0 <= i < entries.len() ==> after[i].0 == entries[i].0);
    }
    index_of_is_unique(after, k);
    if other != key {
        if has_key(entries, other) {
            let o = index_of(entries, other);
            assert(after[o].0 == other);
            index_of_is_unique(after, o);
            index_of_is_unique(entries, o);
        } else if has_key(after, other) {
            let o = index_of(after, other);
            assert(entries[o].0 == other);
        }
    }
}

/// Named text fields, each name once.
#[derive(Debug)]
pub struct Metadata {
    fields: Vec<(String, String)>,
}

impl View for Metadata {
    type V = Entries;

    closed spec fn view(&self) -> Entries {
        self.fields.deep_view()
    }
}

impl Metadata {
    /// Every value of the type holds each name once.
    #[verifier::type_invariant]
    pub closed spec fn well_formed(self) -> bool {
        distinct_keys(self@)
    }

    /// No fields.
    pub fn new() -> (m: Metadata)
        ensures
            m@ == Entries::empty(),
    {
        let m = Metadata { fields: Vec::new() };
        assert(m.fields.deep_view() =~= Seq::empty());
        m
    }

    /// How many names are set.
    pub fn len(&self) -> (n: usize)
        ensures
            n == self@.len(),
            distinct_keys(self@),
    {
        proof {
            use_type_invariant(self);
        }
        self.fields.len()
    }

    /// Whether no name is set.
    pub fn is_empty(&self) -> (b: bool)
        ensures
            b == (self@.len() == 0),
    {
        self.fields.len() == 0
    }

    /// The name at a place.
    pub fn key_at(&self, i: usize) -> (key: &String)
        requires
            i < self@.len(),
        ensures
            key@ == self@[i as int].0,
    {
        &self.fields[i].0
    }

    /// The value at a place.
    pub fn value_at(&self, i: usize) -> (value: &String)
        requires
            i < self@.len(),
        ensures
            value@ == self@[i as int].1,
    {
        &self.fields[i].1
    }

    /// The place of a name, if it is set.
    pub fn position(&self, key: &str) -> (r: Option<usize>)
        ensures
            distinct_keys(self@),
            r is Some == has_key(self@, key@),
            r matches Some(i) ==> i == index_of(self@, key@) && i < self@.len() && self@[i as int].0
                == key@,
    {
        proof {
            use_type_invariant(self);
        }
        let mut i: usize = 0;
        while i < self.fields.len()
            invariant
                i <= self.fields.len(),
                distinct_keys(self@),
                forall|j: int| 0 <= j < i ==> self@[j].0 != key@,
            decreases self.fields.len() - i,
        {
            if self.fields[i].0.as_str().eq(key) {
                proof {
                    index_of_is_unique(self@, i as int);
                }
                return Some(i);
            }
            i += 1;
        }
        None
    }

    /// Whether a name is set.
    pub fn contains_key(&self, key: &str) -> (b: bool)
        ensures
            b == has_key(self@, key@),
    {
        self.position(key).is_some()
    }

    /// The value under a name, if it is set.
    pub fn get(&self, key: &str) -> (value: Option<&String>)
        ensures
            match value {
                Some(v) => lookup(self@, key@) == Some(v@),
                None => lookup(self@, key@) is None,
            },
    {
        match self.position(key) {
            Some(i) => Some(&self.fields[i].1),
            None => None,
        }
    }

    /// The same fields with one name set.
    pub fn with(self, key: String, value: String) -> (m: Metadata)
        ensures
            m@ == with_entry(self@, key@, value@),
    {
        let found = self.position(key.as_str());
        let mut fields = self.fields;
        match found {
            Some(i) => {
                fields.set(i, (key, value));
            },
            None => {
                fields.push((key, value));
            },
        }
        proof {
            assert(fields.deep_view() =~= with_entry(self@, key@, value@));
            with_entry_sets_one_key(self@, key@, value@, key@);
        }
        Metadata { fields }
    }

    /// Sets a name: an earlier value under it is overwritten.
    pub fn insert(&mut self, key: String, value: String)
        ensures
            final(self)@ == with_entry(old(self)@, key@, value@),
    {
        let mut taken = Metadata::new();
        std::mem::swap(self, &mut taken);
        *self = taken.with(key, value);
    }
}

} // verus!
