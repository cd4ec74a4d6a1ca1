//! A name-to-name mapping kept as a list of entries with distinct keys, in
//! the order in which the keys were first set.

use crate::text::same_text;
use vstd::prelude::*;
use vstd::string::StringExecFns;

verus! {

/// The mathematical value of a list of entries.
pub type Entries = Seq<(Seq<char>, Seq<char>)>;

/// The entries of a vector of string pairs, each string by its characters.
pub open spec fn entries_view(v: Seq<(String, String)>) -> Entries {
    v.map_values(|e: (String, String)| (e.0@, e.1@))
}

/// No key occurs in two entries.
pub open spec fn distinct_keys(s: Entries) -> bool {
    forall|i: int, j: int| 0 <= i < j < s.len() ==> (#[trigger] s[i]).0 != (#[trigger] s[j]).0
}

/// Some entry has the key `k`.
pub open spec fn has_key(s: Entries, k: Seq<char>) -> bool {
    exists|i: int| 0 <= i < s.len() && (#[trigger] s[i]).0 == k
}

/// The position of an entry with the key `k`, where there is one.
pub open spec fn key_index(s: Entries, k: Seq<char>) -> int {
    choose|i: int| 0 <= i < s.len() && (#[trigger] s[i]).0 == k
}

/// The value that the key `k` is mapped to, if it is mapped.
pub open spec fn lookup(s: Entries, k: Seq<char>) -> Option<Seq<char>> {
    if has_key(s, k) {
        Some(s[key_index(s, k)].1)
    } else {
        None
    }
}

/// The entries after `k` has been mapped to `v`: an entry with that key is
/// replaced where it stands, and a new key is added at the end.
pub open spec fn with_entry(s: Entries, k: Seq<char>, v: Seq<char>) -> Entries {
    if has_key(s, k) {
        s.update(key_index(s, k), (k, v))
    } else {
        s.push((k, v))
    }
}

/// With distinct keys, an entry that has the key `k` is the one that
/// `key_index` names.
pub proof fn lemma_key_index_unique(s: Entries, k: Seq<char>, i: int)
    requires
        distinct_keys(s),
        0 <= i < s.len(),
        s[i].0 == k,
    ensures
        has_key(s, k),
        key_index(s, k) == i,
        lookup(s, k) == Some(s[i].1),
{
    let j = key_index(s, k);
    assert(0 <= j < s.len() && s[j].0 == k);
    if i < j {
        assert(s[i].0 != s[j].0);
    } else if j < i {
        assert(s[j].0 != s[i].0);
    }
}

/// Setting an entry keeps the keys distinct, maps the key to the new value,
/// leaves every other key as it was, and adds one entry exactly when the key
/// is new.
pub proof fn lemma_with_entry(s: Entries, k: Seq<char>, v: Seq<char>)
    requires
        distinct_keys(s),
    ensures
        distinct_keys(with_entry(s, k, v)),
        lookup(with_entry(s, k, v), k) == Some(v),
        forall|other: Seq<char>| other != k ==> lookup(with_entry(s, k, v), other) == lookup(s, other),
        with_entry(s, k, v).len() == if has_key(s, k) { s.len() } else { s.len() + 1 },
{
    let t = with_entry(s, k, v);
    let at = if has_key(s, k) { key_index(s, k) } else { s.len() as int };
    assert(0 <= at < t.len() && t[at] == (k, v));
    assert forall|i: int| 0 <= i < t.len() && i != at implies t[i] == s[i] && s[i].0 != k by {
        if has_key(s, k) {
            lemma_key_index_unique(s, k, at);
            if s[i].0 == k {
                lemma_key_index_unique(s, k, i);
            }
        } else {
            if s[i].0 == k {
                assert(has_key(s, k));
            }
        }
    }
    assert(distinct_keys(t)) by {
        assert forall|i: int, j: int| 0 <= i < j < t.len() implies t[i].0 != t[j].0 by {
            if i != at && j != at {
                assert(s[i].0 != s[j].0);
            }
        }
    }
    lemma_key_index_unique(t, k, at);
    assert forall|other: Seq<char>| other != k implies lookup(t, other) == lookup(s, other) by {
        if has_key(s, other) {
            let i = key_index(s, other);
            assert(i != at);
            assert(t[i] == s[i]);
            lemma_key_index_unique(t, other, i);
        } else if has_key(t, other) {
            let i = key_index(t, other);
            assert(i != at);
            assert(s[i].0 == other);
            assert(has_key(s, other));
        }
    }
}

/// The position of the entry with the key `key`, if there is one.
fn find_entry(entries: &Vec<(String, String)>, key: &str) -> (r: Option<usize>)
    ensures
        match r {
            Some(i) => i < entries.len() && entries[i as int].0@ == key@,
            None => !has_key(entries_view(entries@), key@),
        },
{
    let mut i: usize = 0;
    while i < entries.len()
        invariant
            i <= entries.len(),
            forall|j: int| 0 <= j < i ==> (#[trigger] entries[j]).0@ != key@,
        decreases entries.len() - i,
    {
        if same_text(entries[i].0.as_str(), key) {
            return Some(i);
        }
        i += 1;
    }
    proof {
        let s = entries_view(entries@);
        assert forall|j: int| 0 <= j < s.len() implies (#[trigger] s[j]).0 != key@ by {
            assert(s[j] == (entries[j].0@, entries[j].1@));
        }
    }
    None
}

/// A copy of `entries`.
fn copy_entries(entries: &Vec<(String, String)>) -> (r: Vec<(String, String)>)
    ensures
        entries_view(r@) == entries_view(entries@),
{
    let mut r: Vec<(String, String)> = Vec::new();
    let mut i: usize = 0;
    while i < entries.len()
        invariant
            i <= entries.len(),
            r.len() == i,
            forall|j: int| 0 <= j < i ==> r[j] == entries[j],
        decreases entries.len() - i,
    {
        r.push((entries[i].0.clone(), entries[i].1.clone()));
        i += 1;
    }
    assert(entries_view(r@) =~= entries_view(entries@));
    r
}

/// A copy of `entries` in which `key` is mapped to `value`: the entry with
/// that key is replaced where it stands, or a new one is added at the end.
fn entries_with(entries: &Vec<(String, String)>, key: &str, value: &str) -> (r: Vec<
    (String, String),
>)
    requires
        distinct_keys(entries_view(entries@)),
    ensures
        entries_view(r@) == with_entry(entries_view(entries@), key@, value@),
        distinct_keys(entries_view(r@)),
{
    let ghost before = entries_view(entries@);
    let found = find_entry(entries, key);
    let mut r: Vec<(String, String)> = Vec::new();
    let mut i: usize = 0;
    while i < entries.len()
        invariant
            i <= entries.len(),
            r.len() == i,
            before == entries_view(entries@),
            match found {
                Some(at) => at < entries.len() && before[at as int].0 == key@,
                None => !has_key(before, key@),
            },
            forall|j: int|
                0 <= j < i ==> (#[trigger] entries_view(r@)[j]) == if found == Some(j as usize) {
                    (key@, value@)
                } else {
                    before[j]
                },
        decreases entries.len() - i,
    {
        let entry = if found == Some(i) {
            (String::from_str(key), String::from_str(value))
        } else {
            (entries[i].0.clone(), entries[i].1.clone())
        };
        let ghost earlier = entries_view(r@);
        r.push(entry);
        proof {
            assert forall|j: int| 0 <= j < i + 1 implies (#[trigger] entries_view(r@)[j]) == if found
                == Some(j as usize) {
                (key@, value@)
            } else {
                before[j]
            } by {
                if j < i {
                    assert(entries_view(r@)[j] == earlier[j]);
                }
            }
        }
        i += 1;
    }
    let ghost looped = entries_view(r@);
    if found.is_none() {
        r.push((String::from_str(key), String::from_str(value)));
    }
    proof {
        let t = with_entry(before, key@, value@);
        let now = entries_view(r@);
        match found {
            Some(at) => {
                lemma_key_index_unique(before, key@, at as int);
                assert(t == before.update(at as int, (key@, value@)));
                assert forall|j: int| 0 <= j < t.len() implies now[j] == t[j] by {
                    assert(now[j] == looped[j]);
                    if j == at as int {
                        assert(Some(j as usize) == found);
                    } else {
                        assert(Some(j as usize) != found);
                    }
                }
            },
            None => {
                assert(t == before.push((key@, value@)));
                assert(now.len() == looped.len() + 1);
                assert forall|j: int| 0 <= j < t.len() implies now[j] == t[j] by {
                    if j < looped.len() {
                        assert(now[j] == looped[j]);
                    }
                }
            },
        }
        assert(now =~= t);
        lemma_with_entry(before, key@, value@);
    }
    r
}

/// A mapping from names to names: at most one entry for a name, the entries
/// in the order in which their names were first set.
#[derive(Debug, PartialEq, Eq)]
pub struct NameMap {
    entries: Vec<(String, String)>,
}

impl View for NameMap {
    type V = Entries;

    closed spec fn view(&self) -> Entries {
        entries_view(self.entries@)
    }
}

impl NameMap {
    #[verifier::type_invariant]
    spec fn keys_are_distinct(&self) -> bool {
        distinct_keys(entries_view(self.entries@))
    }

    /// The empty mapping.
    pub fn new() -> (r: NameMap)
        ensures
            r@ == Entries::empty(),
    {
        let r = NameMap { entries: Vec::new() };
        assert(entries_view(r.entries@) =~= Entries::empty());
        r
    }

    /// The number of entries.
    pub fn len(&self) -> (r: usize)
        ensures
            r == self@.len(),
    {
        self.entries.len()
    }

    /// The value that `key` is mapped to, if it is mapped.
    pub fn get(&self, key: &str) -> (r: Option<&String>)
        ensures
            match r {
                Some(v) => lookup(self@, key@) == Some(v@),
                None => lookup(self@, key@) is None,
            },
    {
        proof {
            use_type_invariant(self);
        }
        match find_entry(&self.entries, key) {
            Some(i) => {
                proof {
                    let s = entries_view(self.entries@);
                    assert(s[i as int] == (self.entries[i as int].0@, self.entries[i as int].1@));
                    lemma_key_index_unique(s, key@, i as int);
                }
                Some(&self.entries[i].1)
            },
            None => None,
        }
    }

    /// Maps `key` to `value`: an entry with that key is replaced where it
    /// stands, and a new key is added at the end.
    pub fn set(&mut self, key: &str, value: &str)
        ensures
            final(self)@ == with_entry(old(self)@, key@, value@),
    {
        proof {
            use_type_invariant(&*self);
        }
        self.entries = entries_with(&self.entries, key, value);
    }

    /// The entries themselves, no two of them with the same key.
    pub fn into_entries(self) -> (r: Vec<(String, String)>)
        ensures
            entries_view(r@) == self@,
            distinct_keys(self@),
    {
        proof {
            use_type_invariant(&self);
        }
        self.entries
    }

    /// The entries, no two of them with the same key.
    pub fn entries(&self) -> (r: &Vec<(String, String)>)
        ensures
            entries_view(r@) == self@,
            distinct_keys(self@),
    {
        proof {
            use_type_invariant(self);
        }
        &self.entries
    }
}

impl Clone for NameMap {
    fn clone(&self) -> (r: NameMap)
        ensures
            r@ == self@,
    {
        proof {
            use_type_invariant(self);
        }
        NameMap { entries: copy_entries(&self.entries) }
    }
}

} // verus!
