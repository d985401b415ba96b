//! Ordered string-keyed collections used for path IDs, query parameters and
//! per-field validation messages.
//!
//! Both keep one entry per key: inserting a key that is present replaces its
//! value in place, inserting a new key appends it.
use vstd::prelude::*;

use crate::text::{str_eq, u64_text};

verus! {

/// The index of the first entry whose key is `key`.
pub open spec fn find_key<V>(entries: Seq<(Seq<char>, V)>, key: Seq<char>) -> Option<int>
    decreases entries.len(),
{
    if entries.len() == 0 {
        None
    } else if entries[0].0 == key {
        Some(0)
    } else {
        match find_key(entries.drop_first(), key) {
            Some(i) => Some(i + 1),
            None => None,
        }
    }
}

/// The entries after inserting `key` with `value`.
pub open spec fn insert_entry<V>(entries: Seq<(Seq<char>, V)>, key: Seq<char>, value: V) -> Seq<
    (Seq<char>, V),
> {
    match find_key(entries, key) {
        Some(i) => entries.update(i, (key, value)),
        None => entries.push((key, value)),
    }
}

/// The value stored under `key`.
pub open spec fn lookup<V>(entries: Seq<(Seq<char>, V)>, key: Seq<char>) -> Option<V> {
    match find_key(entries, key) {
        Some(i) => Some(entries[i].1),
        None => None,
    }
}

/// No key occurs twice.
pub open spec fn keys_distinct<V>(entries: Seq<(Seq<char>, V)>) -> bool {
    forall|i: int, j: int|
        0 <= i < entries.len() && 0 <= j < entries.len() && i != j ==> entries[i].0 != entries[j].0
}

/// `find_key` gives the first index with the key, or none when the key is absent.
pub proof fn lemma_find_key<V>(entries: Seq<(Seq<char>, V)>, key: Seq<char>)
    ensures
        find_key(entries, key) matches Some(i) ==> 0 <= i < entries.len() && entries[i].0 == key
            && forall|j: int| 0 <= j < i ==> entries[j].0 != key,
        find_key(entries, key) is None ==> forall|j: int|
            0 <= j < entries.len() ==> entries[j].0 != key,
    decreases entries.len(),
{
    if entries.len() > 0 {
        lemma_find_key(entries.drop_first(), key);
        assert forall|j: int| 0 < j < entries.len() implies entries[j] == entries.drop_first()[j
            - 1] by {}
    }
}

/// The first index holding `key`, described without recursion.
pub proof fn lemma_find_key_first<V>(entries: Seq<(Seq<char>, V)>, key: Seq<char>, i: int)
    requires
        0 <= i < entries.len(),
        entries[i].0 == key,
        forall|j: int| 0 <= j < i ==> entries[j].0 != key,
    ensures
        find_key(entries, key) == Some(i),
{
    lemma_find_key(entries, key);
    match find_key(entries, key) {
        Some(k) => {
            if k < i {
            } else if k > i {
            }
        },
        None => {},
    }
}

/// After an insertion, the inserted key maps to the inserted value and
/// every other key keeps its value.
pub proof fn lemma_insert_lookup<V>(entries: Seq<(Seq<char>, V)>, key: Seq<char>, value: V, other: Seq<char>)
    ensures
        lookup(insert_entry(entries, key, value), key) == Some(value),
        other != key ==> lookup(insert_entry(entries, key, value), other) == lookup(entries, other),
{
    let e2 = insert_entry(entries, key, value);
    lemma_find_key(entries, key);
    lemma_find_key(entries, other);
    lemma_find_key(e2, key);
    lemma_find_key(e2, other);
    match find_key(entries, key) {
        Some(i) => {
            lemma_find_key_first(e2, key, i);
            if other != key {
                match find_key(entries, other) {
                    Some(k) => {
                        lemma_find_key_first(e2, other, k);
                    },
                    None => {},
                }
            }
        },
        None => {
            lemma_find_key_first(e2, key, entries.len() as int);
            if other != key {
                match find_key(entries, other) {
                    Some(k) => {
                        lemma_find_key_first(e2, other, k);
                    },
                    None => {},
                }
            }
        },
    }
}

/// Insertion keeps keys distinct, and adds one entry exactly when the key was absent.
pub proof fn lemma_insert_distinct<V>(entries: Seq<(Seq<char>, V)>, key: Seq<char>, value: V)
    requires
        keys_distinct(entries),
    ensures
        keys_distinct(insert_entry(entries, key, value)),
        insert_entry(entries, key, value).len() == entries.len() + (if find_key(entries, key) is Some {
            0int
        } else {
            1int
        }),
{
    lemma_find_key(entries, key);
}

fn find_index<V>(entries: &Vec<(String, V)>, key: &str) -> (r: Option<usize>)
    ensures
        r matches Some(i) ==> find_key(entries@.map_values(|e: (String, V)| (e.0@, e.1)), key@)
            == Some(i as int),
        r is None ==> find_key(entries@.map_values(|e: (String, V)| (e.0@, e.1)), key@) is None,
{
    let ghost view = entries@.map_values(|e: (String, V)| (e.0@, e.1));
    let mut i: usize = 0;
    while i < entries.len()
        invariant
            view == entries@.map_values(|e: (String, V)| (e.0@, e.1)),
            i <= entries@.len(),
            forall|j: int| 0 <= j < i ==> view[j].0 != key@,
        decreases entries.len() - i,
    {
        if str_eq(entries[i].0.as_str(), key) {
            proof {
                lemma_find_key_first(view, key@, i as int);
            }
            return Some(i);
        }
        i = i + 1;
    }
    proof {
        lemma_find_key(view, key@);
        if let Some(k) = find_key(view, key@) {
            assert(view[k].0 == key@);
        }
    }
    None
}

/// String values under string keys, one entry per key, in insertion order.
#[derive(Debug, PartialEq, Eq)]
pub struct StringMap {
    entries: Vec<(String, String)>,
}

impl View for StringMap {
    type V = Seq<(Seq<char>, Seq<char>)>;

    closed spec fn view(&self) -> Seq<(Seq<char>, Seq<char>)> {
        self.entries@.map_values(|e: (String, String)| (e.0@, e.1@))
    }
}

impl StringMap {
    /// No key is stored twice.
    #[verifier::type_invariant]
    spec fn one_entry_per_key(self) -> bool {
        keys_distinct(self@)
    }

    /// An empty map.
    pub fn new() -> (m: StringMap)
        ensures
            m@ == Seq::<(Seq<char>, Seq<char>)>::empty(),
    {
        StringMap { entries: Vec::new() }
    }

    /// Stores `value` under `key`, replacing any value stored there; keys
    /// stay distinct.
    pub fn insert(&mut self, key: &str, value: &str)
        ensures
            final(self)@ == insert_entry(old(self)@, key@, value@),
            keys_distinct(final(self)@),
    {
        proof {
            use_type_invariant(&*self);
            lemma_insert_distinct(self@, key@, value@);
        }
        let ghost pre = self.entries@.map_values(|e: (String, String)| (e.0@, e.1));
        let idx = find_index(&self.entries, key);
        proof {
            assert(pre.map_values(|e: (Seq<char>, String)| (e.0, e.1@)) == self@);
            lemma_find_key_view(pre, self@, key@);
            lemma_find_key(pre, key@);
        }
        let mut entries: Vec<(String, String)> = Vec::new();
        std::mem::swap(&mut entries, &mut self.entries);
        match idx {
            Some(i) => {
                entries.set(i, (key.to_string(), value.to_string()));
            },
            None => {
                entries.push((key.to_string(), value.to_string()));
            },
        }
        let ghost after = entries@.map_values(|e: (String, String)| (e.0@, e.1@));
        assert(after == insert_entry(old(self)@, key@, value@));
        self.entries = entries;
        assert(self@ == after);
    }

    /// Stores the decimal text of `value` under `key`.
    pub fn insert_u64(&mut self, key: &str, value: u64)
        ensures
            final(self)@ == insert_entry(old(self)@, key@, crate::text::decimal(value as nat)),
            keys_distinct(final(self)@),
    {
        let text = u64_text(value);
        self.insert(key, text.as_str());
    }

    /// The value stored under `key`.
    pub fn get(&self, key: &str) -> (r: Option<&String>)
        ensures
            r is Some <==> lookup(self@, key@) is Some,
            r is Some ==> r->0@ == lookup(self@, key@)->0,
    {
        let ghost pre = self.entries@.map_values(|e: (String, String)| (e.0@, e.1));
        let idx = find_index(&self.entries, key);
        proof {
            assert(pre.map_values(|e: (Seq<char>, String)| (e.0, e.1@)) == self@);
            lemma_find_key_view(pre, self@, key@);
            lemma_find_key(pre, key@);
        }
        match idx {
            Some(i) => Some(&self.entries[i].1),
            None => None,
        }
    }

    /// Whether a value is stored under `key`.
    pub fn contains_key(&self, key: &str) -> (r: bool)
        ensures
            r == (lookup(self@, key@) is Some),
    {
        self.get(key).is_some()
    }

    /// The number of entries.
    pub fn len(&self) -> (n: usize)
        ensures
            n == self@.len(),
    {
        self.entries.len()
    }

    /// Whether there are no entries.
    pub fn is_empty(&self) -> (r: bool)
        ensures
            r == (self@.len() == 0),
    {
        self.entries.len() == 0
    }

    /// The keys, in order.
    pub fn keys(&self) -> (ks: Vec<&str>)
        ensures
            ks@.len() == self@.len(),
            forall|i: int| 0 <= i < ks@.len() ==> ks@[i]@ == self@[i].0,
    {
        let mut ks: Vec<&str> = Vec::new();
        let mut i: usize = 0;
        while i < self.entries.len()
            invariant
                i <= self.entries@.len(),
                ks@.len() == i,
                forall|j: int| 0 <= j < i ==> ks@[j]@ == self@[j].0,
            decreases self.entries.len() - i,
        {
            ks.push(self.entries[i].0.as_str());
            i = i + 1;
        }
        ks
    }

    /// The key and value of entry `i`.
    pub fn entry(&self, i: usize) -> (r: (&str, &str))
        requires
            i < self@.len(),
        ensures
            r.0@ == self@[i as int].0,
            r.1@ == self@[i as int].1,
    {
        (self.entries[i].0.as_str(), self.entries[i].1.as_str())
    }
}

/// Keys found in one view are found at the same place in a view that maps
/// only the values.
proof fn lemma_find_key_view<V, W>(a: Seq<(Seq<char>, V)>, b: Seq<(Seq<char>, W)>, key: Seq<char>)
    requires
        a.len() == b.len(),
        forall|i: int| 0 <= i < a.len() ==> a[i].0 == b[i].0,
    ensures
        find_key(a, key) == find_key(b, key),
    decreases a.len(),
{
    if a.len() > 0 {
        lemma_find_key_view(a.drop_first(), b.drop_first(), key);
    }
}

/// Field names with their messages, one entry per field, in insertion order.
#[derive(Debug, PartialEq, Eq)]
pub struct FieldErrors {
    entries: Vec<(String, Vec<String>)>,
}

/// A copy of a list of strings.
fn clone_texts(v: &Vec<String>) -> (r: Vec<String>)
    ensures
        texts(r@) == texts(v@),
{
    let mut r: Vec<String> = Vec::new();
    let mut i: usize = 0;
    while i < v.len()
        invariant
            i <= v@.len(),
            r@.len() == i,
            forall|j: int| 0 <= j < i ==> r@[j]@ == v@[j]@,
        decreases v.len() - i,
    {
        r.push(v[i].clone());
        i = i + 1;
    }
    assert(texts(r@) =~= texts(v@));
    r
}

/// The views of a list of strings.
pub open spec fn texts(v: Seq<String>) -> Seq<Seq<char>> {
    v.map_values(|s: String| s@)
}

impl View for FieldErrors {
    type V = Seq<(Seq<char>, Seq<Seq<char>>)>;

    closed spec fn view(&self) -> Seq<(Seq<char>, Seq<Seq<char>>)> {
        self.entries@.map_values(|e: (String, Vec<String>)| (e.0@, texts(e.1@)))
    }
}

impl FieldErrors {
    /// No field is stored twice.
    #[verifier::type_invariant]
    spec fn one_entry_per_field(self) -> bool {
        keys_distinct(self@)
    }

    /// No field errors.
    pub fn new() -> (m: FieldErrors)
        ensures
            m@ == Seq::<(Seq<char>, Seq<Seq<char>>)>::empty(),
    {
        FieldErrors { entries: Vec::new() }
    }

    /// Stores `messages` for `field`, replacing any messages stored there;
    /// fields stay distinct.
    pub fn insert(&mut self, field: String, messages: Vec<String>)
        ensures
            final(self)@ == insert_entry(old(self)@, field@, texts(messages@)),
            keys_distinct(final(self)@),
    {
        proof {
            use_type_invariant(&*self);
            lemma_insert_distinct(self@, field@, texts(messages@));
        }
        let ghost pre = self.entries@.map_values(|e: (String, Vec<String>)| (e.0@, e.1));
        let idx = find_index(&self.entries, field.as_str());
        proof {
            lemma_find_key_view(pre, self@, field@);
            lemma_find_key(pre, field@);
        }
        let ghost fv = field@;
        let ghost mv = texts(messages@);
        let mut entries: Vec<(String, Vec<String>)> = Vec::new();
        std::mem::swap(&mut entries, &mut self.entries);
        match idx {
            Some(i) => {
                entries.set(i, (field, messages));
            },
            None => {
                entries.push((field, messages));
            },
        }
        let ghost after = entries@.map_values(|e: (String, Vec<String>)| (e.0@, texts(e.1@)));
        assert(after == insert_entry(old(self)@, fv, mv));
        self.entries = entries;
        assert(self@ == after);
    }

    /// The messages stored for `field`.
    pub fn get(&self, field: &str) -> (r: Option<&Vec<String>>)
        ensures
            r is Some <==> lookup(self@, field@) is Some,
            r is Some ==> texts(r->0@) == lookup(self@, field@)->0,
    {
        let ghost pre = self.entries@.map_values(|e: (String, Vec<String>)| (e.0@, e.1));
        let idx = find_index(&self.entries, field);
        proof {
            lemma_find_key_view(pre, self@, field@);
            lemma_find_key(pre, field@);
        }
        match idx {
            Some(i) => Some(&self.entries[i].1),
            None => None,
        }
    }

    /// The number of fields with messages.
    pub fn len(&self) -> (n: usize)
        ensures
            n == self@.len(),
    {
        self.entries.len()
    }

    /// Whether no field has messages.
    pub fn is_empty(&self) -> (r: bool)
        ensures
            r == (self@.len() == 0),
    {
        self.entries.len() == 0
    }

    /// The field name and messages of entry `i`.
    pub fn entry(&self, i: usize) -> (r: (&str, &Vec<String>))
        requires
            i < self@.len(),
        ensures
            r.0@ == self@[i as int].0,
            texts(r.1@) == self@[i as int].1,
    {
        (self.entries[i].0.as_str(), &self.entries[i].1)
    }
}

impl Clone for StringMap {
    fn clone(&self) -> (c: Self)
        ensures
            c@ == self@,
    {
        let mut entries: Vec<(String, String)> = Vec::new();
        let mut i: usize = 0;
        while i < self.entries.len()
            invariant
                i <= self.entries@.len(),
                entries@.len() == i,
                forall|j: int|
                    0 <= j < i ==> (#[trigger] entries@[j]).0@ == self.entries@[j].0@ && entries@[j].1@
                        == self.entries@[j].1@,
            decreases self.entries.len() - i,
        {
            entries.push((self.entries[i].0.clone(), self.entries[i].1.clone()));
            i = i + 1;
        }
        proof {
            use_type_invariant(self);
            assert(entries@.map_values(|e: (String, String)| (e.0@, e.1@)) =~= self@);
        }
        StringMap { entries }
    }
}

impl Clone for FieldErrors {
    fn clone(&self) -> (c: Self)
        ensures
            c@ == self@,
    {
        let mut entries: Vec<(String, Vec<String>)> = Vec::new();
        let mut i: usize = 0;
        while i < self.entries.len()
            invariant
                i <= self.entries@.len(),
                entries@.len() == i,
                forall|j: int|
                    0 <= j < i ==> (#[trigger] entries@[j]).0@ == self.entries@[j].0@ && texts(entries@[j].1@)
                        == texts(self.entries@[j].1@),
            decreases self.entries.len() - i,
        {
            entries.push((self.entries[i].0.clone(), clone_texts(&self.entries[i].1)));
            i = i + 1;
        }
        proof {
            use_type_invariant(self);
            assert(entries@.map_values(|e: (String, Vec<String>)| (e.0@, texts(e.1@))) =~= self@);
        }
        FieldErrors { entries }
    }
}

} // verus!
