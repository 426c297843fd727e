//! A map from strings to values, kept as a list of entries with distinct keys.
//!
//! The map is viewed as a `Map` from the characters of a key to the view of
//! its value.  The order of the entries is an implementation detail: no
//! contract speaks of it.

use crate::text::{is_prefix_of, starts_with, str_eq};
use vstd::prelude::*;

verus! {

/// The map that a list of entries stands for; a later entry shadows an
/// earlier one with the same key.
pub open spec fn map_of<V: View>(entries: Seq<(String, V)>) -> Map<Seq<char>, V::V>
    decreases entries.len(),
{
    if entries.len() == 0 {
        Map::empty()
    } else {
        map_of(entries.drop_last()).insert(entries.last().0@, entries.last().1@)
    }
}

/// The key of the entry at position `i`.
pub open spec fn key_at<V>(entries: Seq<(String, V)>, i: int) -> Seq<char> {
    entries[i].0@
}

/// No two entries have the same key.
pub open spec fn distinct_keys<V>(entries: Seq<(String, V)>) -> bool {
    forall|i: int, j: int|
        0 <= i < j < entries.len() ==> #[trigger] key_at(entries, i) != #[trigger] key_at(
            entries,
            j,
        )
}

/// A key is in the map exactly when some entry carries it.
pub proof fn lemma_map_of_domain<V: View>(entries: Seq<(String, V)>, key: Seq<char>)
    ensures
        map_of(entries).contains_key(key) <==> exists|i: int|
            0 <= i < entries.len() && #[trigger] key_at(entries, i) == key,
    decreases entries.len(),
{
    if entries.len() > 0 {
        let front = entries.drop_last();
        lemma_map_of_domain(front, key);
        if map_of(entries).contains_key(key) {
            if entries.last().0@ == key {
                assert(key_at(entries, entries.len() - 1) == key);
            } else {
                let i = choose|i: int| 0 <= i < front.len() && #[trigger] key_at(front, i) == key;
                assert(key_at(entries, i) == key);
            }
        }
        if exists|i: int| 0 <= i < entries.len() && #[trigger] key_at(entries, i) == key {
            let i = choose|i: int| 0 <= i < entries.len() && #[trigger] key_at(entries, i) == key;
            if i < entries.len() - 1 {
                assert(key_at(front, i) == key);
            }
        }
    }
}

/// With distinct keys, every entry is what the map holds under its key.
pub proof fn lemma_map_of_entry<V: View>(entries: Seq<(String, V)>, i: int)
    requires
        distinct_keys(entries),
        0 <= i < entries.len(),
    ensures
        map_of(entries).contains_key(entries[i].0@),
        map_of(entries)[entries[i].0@] == entries[i].1@,
    decreases entries.len(),
{
    let front = entries.drop_last();
    if i < entries.len() - 1 {
        assert(distinct_keys(front)) by {
            assert forall|a: int, b: int| 0 <= a < b < front.len() implies #[trigger] key_at(
                front,
                a,
            ) != #[trigger] key_at(front, b) by {
                assert(key_at(entries, a) != key_at(entries, b));
            }
        }
        lemma_map_of_entry(front, i);
        assert(key_at(entries, i) != key_at(entries, entries.len() - 1));
    }
}

/// A list with distinct keys stands for a finite map with one key per entry.
pub proof fn lemma_map_of_len<V: View>(entries: Seq<(String, V)>)
    requires
        distinct_keys(entries),
    ensures
        map_of(entries).dom().finite(),
        map_of(entries).len() == entries.len(),
    decreases entries.len(),
{
    if entries.len() > 0 {
        let front = entries.drop_last();
        assert(distinct_keys(front)) by {
            assert forall|a: int, b: int| 0 <= a < b < front.len() implies #[trigger] key_at(
                front,
                a,
            ) != #[trigger] key_at(front, b) by {
                assert(key_at(entries, a) != key_at(entries, b));
            }
        }
        lemma_map_of_len(front);
        lemma_map_of_domain(front, entries.last().0@);
        if map_of(front).contains_key(entries.last().0@) {
            let i = choose|i: int|
                0 <= i < front.len() && #[trigger] key_at(front, i) == entries.last().0@;
            assert(key_at(entries, i) != key_at(entries, entries.len() - 1));
        }
    }
}

/// A map keyed by strings.
#[derive(Debug)]
pub struct StringMap<V> {
    entries: Vec<(String, V)>,
}

/// Labels or annotations of an object.
pub type FieldMap = StringMap<String>;

/// The binary payload of a secret.
pub type ByteMap = StringMap<Vec<u8>>;

impl<V: View> View for StringMap<V> {
    type V = Map<Seq<char>, V::V>;

    closed spec fn view(&self) -> Map<Seq<char>, V::V> {
        map_of(self.entries@)
    }
}

impl<V: View> DeepView for StringMap<V> {
    type V = Map<Seq<char>, V::V>;

    open spec fn deep_view(&self) -> Map<Seq<char>, V::V> {
        self.view()
    }
}

impl<V> StringMap<V> {
    #[verifier::type_invariant]
    spec fn keys_are_distinct(self) -> bool {
        distinct_keys(self.entries@)
    }
}

impl<V: View> StringMap<V> {
    /// The empty map.
    pub fn new() -> (r: Self)
        ensures
            r@ == Map::<Seq<char>, V::V>::empty(),
    {
        StringMap { entries: Vec::new() }
    }

    /// The number of keys.
    pub fn len(&self) -> (r: usize)
        ensures
            self@.dom().finite(),
            r == self@.len(),
    {
        proof {
            use_type_invariant(self);
            lemma_map_of_len(self.entries@);
        }
        self.entries.len()
    }

    /// The entries, each key once, in no particular order.
    pub fn entries(&self) -> (r: &Vec<(String, V)>)
        ensures
            distinct_keys(r@),
            map_of(r@) == self@,
    {
        proof {
            use_type_invariant(self);
        }
        &self.entries
    }

    /// The position of the entry under `key`, if there is one.
    fn position(&self, key: &str) -> (r: Option<usize>)
        ensures
            match r {
                Some(i) => i < self.entries@.len() && self.entries@[i as int].0@ == key@,
                None => !self@.contains_key(key@),
            },
    {
        let mut i: usize = 0;
        while i < self.entries.len()
            invariant
                i <= self.entries@.len(),
                forall|j: int| 0 <= j < i ==> #[trigger] key_at(self.entries@, j) != key@,
            decreases self.entries@.len() - i,
        {
            if str_eq(self.entries[i].0.as_str(), key) {
                return Some(i);
            }
            assert(key_at(self.entries@, i as int) != key@);
            i += 1;
        }
        proof {
            lemma_map_of_domain(self.entries@, key@);
        }
        None
    }

    /// Whether the map has an entry under `key`.
    pub fn contains_key(&self, key: &str) -> (r: bool)
        ensures
            r == self@.contains_key(key@),
    {
        match self.position(key) {
            Some(i) => {
                proof {
                    use_type_invariant(self);
                    lemma_map_of_entry(self.entries@, i as int);
                }
                true
            },
            None => false,
        }
    }

    /// The value under `key`.
    pub fn get(&self, key: &str) -> (r: Option<&V>)
        ensures
            match r {
                Some(v) => self@.contains_key(key@) && v@ == self@[key@],
                None => !self@.contains_key(key@),
            },
    {
        match self.position(key) {
            Some(i) => {
                proof {
                    use_type_invariant(self);
                    lemma_map_of_entry(self.entries@, i as int);
                }
                Some(&self.entries[i].1)
            },
            None => None,
        }
    }

    /// Puts `value` under `key`, in place of what was there.
    pub fn insert(&mut self, key: String, value: V)
        ensures
            final(self)@ == old(self)@.insert(key@, value@),
    {
        proof {
            use_type_invariant(&*self);
        }
        let found = self.position(key.as_str());
        let mut taken = StringMap { entries: Vec::new() };
        core::mem::swap(self, &mut taken);
        let mut entries = taken.entries;
        let ghost before = entries@;
        match found {
            Some(i) => {
                entries.set(i, (key, value));
                proof {
                    let after = entries@;
                    assert(distinct_keys(after)) by {
                        assert forall|a: int, b: int| 0 <= a < b < after.len() implies #[trigger] key_at(
                            after,
                            a,
                        ) != #[trigger] key_at(after, b) by {
                            assert(key_at(before, a) != key_at(before, b));
                        }
                    }
                    lemma_same_keys_replace(before, after, i as int);
                }
            },
            None => {
                push_new(&mut entries, key, value);
            },
        }
        *self = StringMap { entries };
    }
}

/// Replacing the value of one entry is an insertion under that entry's key.
proof fn lemma_same_keys_replace<V: View>(
    before: Seq<(String, V)>,
    after: Seq<(String, V)>,
    i: int,
)
    requires
        distinct_keys(before),
        distinct_keys(after),
        0 <= i < before.len(),
        after.len() == before.len(),
        after[i].0@ == before[i].0@,
        forall|j: int| 0 <= j < before.len() && j != i ==> after[j] == before[j],
    ensures
        map_of(after) == map_of(before).insert(after[i].0@, after[i].1@),
{
    let key = after[i].0@;
    let target = map_of(before).insert(key, after[i].1@);
    assert forall|k: Seq<char>| map_of(after).contains_key(k) <==> target.contains_key(k) by {
        lemma_map_of_domain(before, k);
        lemma_map_of_domain(after, k);
        if map_of(after).contains_key(k) {
            let j = choose|j: int| 0 <= j < after.len() && #[trigger] key_at(after, j) == k;
            assert(key_at(before, j) == k);
        }
        if map_of(before).contains_key(k) {
            let j = choose|j: int| 0 <= j < before.len() && #[trigger] key_at(before, j) == k;
            assert(key_at(after, j) == k);
        }
        if k == key {
            assert(key_at(after, i) == k);
        }
    }
    assert forall|k: Seq<char>| map_of(after).contains_key(k) implies map_of(after)[k]
        == target[k] by {
        lemma_map_of_domain(after, k);
        let j = choose|j: int| 0 <= j < after.len() && #[trigger] key_at(after, j) == k;
        lemma_map_of_entry(after, j);
        if j != i {
            lemma_map_of_entry(before, j);
            assert(key_at(before, j) != key_at(before, i));
        }
    }
    assert(map_of(after) =~= target);
}

/// Appends an entry whose key is not in the list yet.
fn push_new<V: View>(entries: &mut Vec<(String, V)>, key: String, value: V)
    requires
        distinct_keys(old(entries)@),
        !map_of(old(entries)@).contains_key(key@),
    ensures
        distinct_keys(final(entries)@),
        map_of(final(entries)@) == map_of(old(entries)@).insert(key@, value@),
{
    let ghost before = entries@;
    entries.push((key, value));
    proof {
        let after = entries@;
        assert(after.drop_last() == before);
        lemma_map_of_domain(before, key@);
        assert forall|a: int, b: int| 0 <= a < b < after.len() implies #[trigger] key_at(after, a)
            != #[trigger] key_at(after, b) by {
            if b < before.len() {
                assert(key_at(before, a) != key_at(before, b));
            } else {
                assert(key_at(before, a) == key_at(after, a));
            }
        }
    }
}

/// The first `n` entries of a list with distinct keys have distinct keys, and
/// none of them has the key of the entry at `n`.
proof fn lemma_take_distinct<V: View>(entries: Seq<(String, V)>, n: int)
    requires
        distinct_keys(entries),
        0 <= n <= entries.len(),
    ensures
        distinct_keys(entries.take(n)),
        n < entries.len() ==> !map_of(entries.take(n)).contains_key(entries[n].0@),
        n < entries.len() ==> map_of(entries.take(n + 1)) == map_of(entries.take(n)).insert(
            entries[n].0@,
            entries[n].1@,
        ),
{
    let front = entries.take(n);
    assert forall|a: int, b: int| 0 <= a < b < front.len() implies #[trigger] key_at(front, a)
        != #[trigger] key_at(front, b) by {
        assert(key_at(entries, a) != key_at(entries, b));
    }
    if n < entries.len() {
        lemma_map_of_domain(front, entries[n].0@);
        if map_of(front).contains_key(entries[n].0@) {
            let i = choose|i: int| 0 <= i < front.len() && #[trigger] key_at(front, i) == entries[n].0@;
            assert(key_at(entries, i) != key_at(entries, n));
        }
        assert(entries.take(n + 1).drop_last() == front);
    }
}

/// The entries of `m` whose key does not begin with `prefix`.
pub open spec fn without_prefix(m: Map<Seq<char>, Seq<char>>, prefix: Seq<char>) -> Map<
    Seq<char>,
    Seq<char>,
> {
    Map::new(|k: Seq<char>| m.contains_key(k) && !is_prefix_of(prefix, k), |k: Seq<char>| m[k])
}

impl StringMap<String> {
    /// A copy without the entries whose key begins with `prefix`.
    pub fn without_prefix(&self, prefix: &str) -> (r: Self)
        ensures
            r@ == without_prefix(self@, prefix@),
    {
        proof {
            use_type_invariant(self);
        }
        let mut kept: Vec<(String, String)> = Vec::new();
        let mut i: usize = 0;
        while i < self.entries.len()
            invariant
                i <= self.entries@.len(),
                distinct_keys(self.entries@),
                distinct_keys(kept@),
                map_of(kept@) == without_prefix(map_of(self.entries@.take(i as int)), prefix@),
            decreases self.entries@.len() - i,
        {
            proof {
                lemma_take_distinct(self.entries@, i as int);
            }
            let ghost seen = map_of(self.entries@.take(i as int));
            let key = &self.entries[i].0;
            let value = &self.entries[i].1;
            if starts_with(key.as_str(), prefix) {
                assert(without_prefix(seen.insert(key@, value@), prefix@) == without_prefix(
                    seen,
                    prefix@,
                ));
            } else {
                push_new(&mut kept, key.clone(), value.clone());
                assert(without_prefix(seen.insert(key@, value@), prefix@) == without_prefix(
                    seen,
                    prefix@,
                ).insert(key@, value@));
            }
            i += 1;
        }
        assert(self.entries@.take(i as int) == self.entries@);
        StringMap { entries: kept }
    }
}

impl Clone for StringMap<String> {
    fn clone(&self) -> (r: Self)
        ensures
            r@ == self@,
    {
        proof {
            use_type_invariant(self);
        }
        let mut copy: Vec<(String, String)> = Vec::new();
        let mut i: usize = 0;
        while i < self.entries.len()
            invariant
                i <= self.entries@.len(),
                distinct_keys(self.entries@),
                distinct_keys(copy@),
                map_of(copy@) == map_of(self.entries@.take(i as int)),
            decreases self.entries@.len() - i,
        {
            proof {
                lemma_take_distinct(self.entries@, i as int);
            }
            push_new(&mut copy, self.entries[i].0.clone(), self.entries[i].1.clone());
            i += 1;
        }
        assert(self.entries@.take(i as int) == self.entries@);
        StringMap { entries: copy }
    }
}

impl Clone for StringMap<Vec<u8>> {
    fn clone(&self) -> (r: Self)
        ensures
            r@ == self@,
    {
        proof {
            use_type_invariant(self);
        }
        let mut copy: Vec<(String, Vec<u8>)> = Vec::new();
        let mut i: usize = 0;
        while i < self.entries.len()
            invariant
                i <= self.entries@.len(),
                distinct_keys(self.entries@),
                distinct_keys(copy@),
                map_of(copy@) == map_of(self.entries@.take(i as int)),
            decreases self.entries@.len() - i,
        {
            proof {
                lemma_take_distinct(self.entries@, i as int);
            }
            let bytes = self.entries[i].1.clone();
            assert(bytes@ == self.entries@[i as int].1@);
            push_new(&mut copy, self.entries[i].0.clone(), bytes);
            i += 1;
        }
        assert(self.entries@.take(i as int) == self.entries@);
        StringMap { entries: copy }
    }
}

} // verus!
