//! The system information at the head of a problem report: a map from keys to
//! values, kept in the order of its keys.

use vstd::prelude::*;
use crate::text::{chars_of, same_text};

verus! {

/// A key with its value.
pub type Entry = (Seq<char>, Seq<char>);

/// `a` comes before `b` in the order of strings: at the first position where
/// they differ `a` has the smaller character, or `a` ends there and `b` goes
/// on.
pub open spec fn precedes(a: Seq<char>, b: Seq<char>) -> bool
    decreases a.len(),
{
    if b.len() == 0 {
        false
    } else if a.len() == 0 {
        true
    } else if a[0] != b[0] {
        (a[0] as int) < (b[0] as int)
    } else {
        precedes(a.skip(1), b.skip(1))
    }
}

/// No string comes before itself.
pub proof fn lemma_precedes_irreflexive(a: Seq<char>)
    ensures
        !precedes(a, a),
    decreases a.len(),
{
    if a.len() > 0 {
        lemma_precedes_irreflexive(a.skip(1));
    }
}

/// Of two different strings one comes before the other.
pub proof fn lemma_precedes_total(a: Seq<char>, b: Seq<char>)
    ensures
        a == b || precedes(a, b) || precedes(b, a),
        !(precedes(a, b) && precedes(b, a)),
    decreases a.len(),
{
    if a.len() == 0 || b.len() == 0 {
        if a.len() == 0 && b.len() == 0 {
            assert(a =~= b);
        }
    } else if a[0] == b[0] {
        lemma_precedes_total(a.skip(1), b.skip(1));
        if a.skip(1) == b.skip(1) {
            assert(a =~= seq![a[0]] + a.skip(1));
            assert(b =~= seq![b[0]] + b.skip(1));
        }
    }
}

/// The order of strings is transitive.
pub proof fn lemma_precedes_transitive(a: Seq<char>, b: Seq<char>, c: Seq<char>)
    requires
        precedes(a, b),
        precedes(b, c),
    ensures
        precedes(a, c),
    decreases a.len(),
{
    if a.len() > 0 && a[0] == b[0] && b[0] == c[0] {
        lemma_precedes_transitive(a.skip(1), b.skip(1), c.skip(1));
    }
}

/// Tells whether `a` comes before `b`.
pub fn comes_before(a: &Vec<char>, b: &Vec<char>) -> (before: bool)
    ensures
        before == precedes(a@, b@),
{
    let mut at: usize = 0;
    assert(a@.skip(0) =~= a@ && b@.skip(0) =~= b@);
    while at < a.len() && at < b.len()
        invariant
            at <= a.len(),
            at <= b.len(),
            precedes(a@, b@) == precedes(a@.skip(at as int), b@.skip(at as int)),
        decreases a.len() - at,
    {
        if a[at] != b[at] {
            return a[at] < b[at];
        }
        assert(a@.skip(at as int).skip(1) =~= a@.skip(at + 1));
        assert(b@.skip(at as int).skip(1) =~= b@.skip(at + 1));
        at += 1;
    }
    at < b.len()
}

/// The entries stand in the strict order of their keys, so no key occurs
/// twice.
pub open spec fn entries_sorted(entries: Seq<Entry>) -> bool {
    forall|i: int, j: int|
        0 <= i < j < entries.len() ==> precedes((#[trigger] entries[i]).0, (#[trigger] entries[j]).0)
}

/// The value that `entries` holds for `key`.
pub open spec fn lookup(entries: Seq<Entry>, key: Seq<char>) -> Option<Seq<char>>
    decreases entries.len(),
{
    if entries.len() == 0 {
        None
    } else if entries[0].0 == key {
        Some(entries[0].1)
    } else {
        lookup(entries.skip(1), key)
    }
}

/// `entries` after `key` has been given the value `value`: an entry with
/// that key is replaced, and otherwise the new entry goes in front of the
/// first entry whose key comes after `key`.
pub open spec fn inserted(entries: Seq<Entry>, key: Seq<char>, value: Seq<char>) -> Seq<Entry>
    decreases entries.len(),
{
    if entries.len() == 0 {
        seq![(key, value)]
    } else if entries[0].0 == key {
        seq![(key, value)] + entries.skip(1)
    } else if precedes(key, entries[0].0) {
        seq![(key, value)] + entries
    } else {
        seq![entries[0]] + inserted(entries.skip(1), key, value)
    }
}

/// Inserting puts nothing in front of a key that comes before the new key
/// and before all the old ones.
proof fn lemma_inserted_keeps_lower_bound(
    entries: Seq<Entry>,
    key: Seq<char>,
    value: Seq<char>,
    bound: Seq<char>,
)
    requires
        precedes(bound, key),
        forall|j: int| 0 <= j < entries.len() ==> precedes(bound, (#[trigger] entries[j]).0),
    ensures
        forall|j: int|
            0 <= j < inserted(entries, key, value).len() ==> precedes(
                bound,
                (#[trigger] inserted(entries, key, value)[j]).0,
            ),
    decreases entries.len(),
{
    let result = inserted(entries, key, value);
    if entries.len() == 0 {
    } else if entries[0].0 == key {
        assert forall|j: int| 0 <= j < result.len() implies precedes(
            bound,
            (#[trigger] result[j]).0,
        ) by {
            if j > 0 {
                assert(result[j] == entries[j]);
            }
        }
    } else if precedes(key, entries[0].0) {
        assert forall|j: int| 0 <= j < result.len() implies precedes(
            bound,
            (#[trigger] result[j]).0,
        ) by {
            if j > 0 {
                assert(result[j] == entries[j - 1]);
            }
        }
    } else {
        let rest = entries.skip(1);
        assert forall|j: int| 0 <= j < rest.len() implies precedes(
            bound,
            (#[trigger] rest[j]).0,
        ) by {
            assert(rest[j] == entries[j + 1]);
        }
        lemma_inserted_keeps_lower_bound(rest, key, value, bound);
        let tail = inserted(rest, key, value);
        assert forall|j: int| 0 <= j < result.len() implies precedes(
            bound,
            (#[trigger] result[j]).0,
        ) by {
            if j > 0 {
                assert(result[j] == tail[j - 1]);
            } else {
                assert(result[0] == entries[0]);
            }
        }
    }
}

/// Inserting into sorted entries leaves them sorted.
pub proof fn lemma_inserted_sorted(entries: Seq<Entry>, key: Seq<char>, value: Seq<char>)
    requires
        entries_sorted(entries),
    ensures
        entries_sorted(inserted(entries, key, value)),
    decreases entries.len(),
{
    let result = inserted(entries, key, value);
    if entries.len() == 0 {
    } else if entries[0].0 == key {
        assert forall|i: int, j: int| 0 <= i < j < result.len() implies precedes(
            (#[trigger] result[i]).0,
            (#[trigger] result[j]).0,
        ) by {
            assert(result[j] == entries[j]);
            assert(result[i].0 == entries[i].0);
        }
    } else if precedes(key, entries[0].0) {
        assert forall|i: int, j: int| 0 <= i < j < result.len() implies precedes(
            (#[trigger] result[i]).0,
            (#[trigger] result[j]).0,
        ) by {
            assert(result[j] == entries[j - 1]);
            if i == 0 {
                if j > 1 {
                    lemma_precedes_transitive(key, entries[0].0, entries[j - 1].0);
                }
            } else {
                assert(result[i] == entries[i - 1]);
            }
        }
    } else {
        let rest = entries.skip(1);
        assert(entries_sorted(rest)) by {
            assert forall|i: int, j: int| 0 <= i < j < rest.len() implies precedes(
                (#[trigger] rest[i]).0,
                (#[trigger] rest[j]).0,
            ) by {
                assert(rest[i] == entries[i + 1] && rest[j] == entries[j + 1]);
            }
        }
        lemma_inserted_sorted(rest, key, value);
        lemma_precedes_total(key, entries[0].0);
        assert forall|j: int| 0 <= j < rest.len() implies precedes(
            entries[0].0,
            (#[trigger] rest[j]).0,
        ) by {
            assert(rest[j] == entries[j + 1]);
        }
        lemma_inserted_keeps_lower_bound(rest, key, value, entries[0].0);
        let tail = inserted(rest, key, value);
        assert forall|i: int, j: int| 0 <= i < j < result.len() implies precedes(
            (#[trigger] result[i]).0,
            (#[trigger] result[j]).0,
        ) by {
            assert(result[j] == tail[j - 1]);
            if i > 0 {
                assert(result[i] == tail[i - 1]);
            }
        }
    }
}

/// After an insertion the key has the new value, and every other key has the
/// value it had.
pub proof fn lemma_lookup_inserted(
    entries: Seq<Entry>,
    key: Seq<char>,
    value: Seq<char>,
    other: Seq<char>,
)
    ensures
        lookup(inserted(entries, key, value), key) == Some(value),
        other != key ==> lookup(inserted(entries, key, value), other) == lookup(entries, other),
    decreases entries.len(),
{
    let result = inserted(entries, key, value);
    if entries.len() == 0 {
        assert(result.skip(1) =~= entries);
    } else if entries[0].0 == key {
        assert(result.skip(1) =~= entries.skip(1));
    } else if precedes(key, entries[0].0) {
        assert(result.skip(1) =~= entries);
    } else {
        assert(result.skip(1) =~= inserted(entries.skip(1), key, value));
        lemma_lookup_inserted(entries.skip(1), key, value, other);
    }
}

/// A key is found exactly when some entry has it.
pub proof fn lemma_lookup_finds(entries: Seq<Entry>, key: Seq<char>)
    ensures
        lookup(entries, key) is Some <==> exists|i: int|
            0 <= i < entries.len() && (#[trigger] entries[i]).0 == key,
    decreases entries.len(),
{
    if entries.len() > 0 && entries[0].0 != key {
        let rest = entries.skip(1);
        lemma_lookup_finds(rest, key);
        if lookup(rest, key) is Some {
            let i = choose|i: int| 0 <= i < rest.len() && (#[trigger] rest[i]).0 == key;
            assert(entries[i + 1] == rest[i]);
        }
        if exists|i: int| 0 <= i < entries.len() && (#[trigger] entries[i]).0 == key {
            let i = choose|i: int| 0 <= i < entries.len() && (#[trigger] entries[i]).0 == key;
            assert(rest[i - 1] == entries[i]);
        }
    }
}

/// Inserting a new key makes sorted entries longer by one; inserting a key
/// that is there leaves their number as it was.
pub proof fn lemma_inserted_len(entries: Seq<Entry>, key: Seq<char>, value: Seq<char>)
    requires
        entries_sorted(entries),
    ensures
        inserted(entries, key, value).len() == if lookup(entries, key) is Some {
            entries.len()
        } else {
            entries.len() + 1
        },
    decreases entries.len(),
{
    if entries.len() == 0 {
    } else if entries[0].0 == key {
    } else if precedes(key, entries[0].0) {
        lemma_lookup_finds(entries, key);
        if lookup(entries, key) is Some {
            let i = choose|i: int| 0 <= i < entries.len() && (#[trigger] entries[i]).0 == key;
            if i > 0 {
                lemma_precedes_transitive(key, entries[0].0, entries[i].0);
            }
            lemma_precedes_irreflexive(key);
        }
    } else {
        let rest = entries.skip(1);
        assert(entries_sorted(rest)) by {
            assert forall|i: int, j: int| 0 <= i < j < rest.len() implies precedes(
                (#[trigger] rest[i]).0,
                (#[trigger] rest[j]).0,
            ) by {
                assert(rest[i] == entries[i + 1] && rest[j] == entries[j + 1]);
            }
        }
        lemma_inserted_len(rest, key, value);
    }
}

/// The entries that a vector of pairs of strings stands for.
pub open spec fn entry_views(entries: Seq<(String, String)>) -> Seq<Entry> {
    entries.map_values(|entry: (String, String)| (entry.0@, entry.1@))
}

/// A map from keys to values that is walked in the order of its keys.
#[derive(Debug)]
pub struct Metadata {
    entries: Vec<(String, String)>,
}

impl View for Metadata {
    type V = Seq<Entry>;

    closed spec fn view(&self) -> Seq<Entry> {
        entry_views(self.entries@)
    }
}

impl Metadata {
    #[verifier::type_invariant]
    spec fn sorted(self) -> bool {
        entries_sorted(entry_views(self.entries@))
    }

    /// The entries stand in the order of their keys, so that no key occurs
    /// twice. It holds of every map: `entries` gives it for the asking.
    pub open spec fn in_key_order(&self) -> bool {
        entries_sorted(self@)
    }

    /// A map without entries.
    pub fn new() -> (metadata: Self)
        ensures
            metadata@ == Seq::<Entry>::empty(),
            metadata.in_key_order(),
    {
        let metadata = Metadata { entries: Vec::new() };
        assert(metadata@ =~= Seq::<Entry>::empty());
        metadata
    }

    /// The number of entries.
    pub fn len(&self) -> (len: usize)
        ensures
            len == self@.len(),
    {
        self.entries.len()
    }

    /// The entries in the order of their keys.
    pub fn entries(&self) -> (entries: &Vec<(String, String)>)
        ensures
            entry_views(entries@) == self@,
            self.in_key_order(),
    {
        proof {
            use_type_invariant(self);
        }
        &self.entries
    }

    /// The value of `key`, if the map has one.
    pub fn get(&self, key: &str) -> (value: Option<&String>)
        ensures
            match value {
                Some(text) => lookup(self@, key@) == Some(text@),
                None => lookup(self@, key@) is None,
            },
    {
        let mut at: usize = 0;
        assert(self@.skip(0) =~= self@);
        while at < self.entries.len()
            invariant
                at <= self.entries.len(),
                lookup(self@, key@) == lookup(self@.skip(at as int), key@),
            decreases self.entries.len() - at,
        {
            assert(self@.skip(at as int)[0] == self@[at as int]);
            if same_text(self.entries[at].0.as_str(), key) {
                return Some(&self.entries[at].1);
            }
            assert(self@.skip(at as int).skip(1) =~= self@.skip(at + 1));
            at += 1;
        }
        None
    }

    /// Gives `key` the value `value`, in place of the value it may have had.
    pub fn insert(&mut self, key: String, value: String)
        ensures
            final(self)@ == inserted(old(self)@, key@, value@),
            final(self).in_key_order(),
    {
        proof {
            use_type_invariant(&*self);
            lemma_inserted_sorted(self@, key@, value@);
        }
        let key_chars = chars_of(key.as_str());
        let mut at: usize = 0;
        assert(self@.skip(0) =~= self@);
        assert(self@.take(0) + inserted(self@, key@, value@) =~= inserted(self@, key@, value@));
        while at < self.entries.len()
            invariant
                at <= self.entries.len(),
                *self == *old(self),
                key_chars@ == key@,
                inserted(self@, key@, value@) == self@.take(at as int) + inserted(
                    self@.skip(at as int),
                    key@,
                    value@,
                ),
                entries_sorted(inserted(self@, key@, value@)),
            decreases self.entries.len() - at,
        {
            let ghost rest = self@.skip(at as int);
            assert(rest[0] == self@[at as int]);
            if same_text(self.entries[at].0.as_str(), key.as_str()) {
                let ghost next = self.entries@.update(at as int, (key, value));
                assert(entry_views(next) =~= self@.take(at as int) + (seq![(key@, value@)]
                    + rest.skip(1)));
                let mut entries: Vec<(String, String)> = Vec::new();
                std::mem::swap(&mut entries, &mut self.entries);
                entries.set(at, (key, value));
                self.entries = entries;
                return ;
            }
            let entry_chars = chars_of(self.entries[at].0.as_str());
            if comes_before(&key_chars, &entry_chars) {
                let ghost next = self.entries@.insert(at as int, (key, value));
                assert(entry_views(next) =~= self@.take(at as int) + (seq![(key@, value@)]
                    + rest));
                let mut entries: Vec<(String, String)> = Vec::new();
                std::mem::swap(&mut entries, &mut self.entries);
                entries.insert(at, (key, value));
                self.entries = entries;
                return ;
            }
            assert(rest.skip(1) =~= self@.skip(at + 1));
            assert(self@.take(at + 1) =~= self@.take(at as int) + seq![rest[0]]);
            assert(self@.take(at + 1) + inserted(rest.skip(1), key@, value@) =~= self@.take(
                at as int,
            ) + (seq![rest[0]] + inserted(rest.skip(1), key@, value@)));
            at += 1;
        }
        let ghost next = self.entries@.push((key, value));
        assert(entry_views(next) =~= self@.take(at as int) + seq![(key@, value@)]);
        let mut entries: Vec<(String, String)> = Vec::new();
        std::mem::swap(&mut entries, &mut self.entries);
        entries.push((key, value));
        self.entries = entries;
    }
}

} // verus!
