//! A map with text keys, for labels and for the data of a Secret.
use vstd::prelude::*;

use crate::text;

verus! {

/// A map from text to values. No key occurs twice.
pub struct StringMap<V> {
    entries: Vec<(String, V)>,
}

/// No key occurs twice among the entries.
pub open spec fn keys_distinct<V>(entries: Seq<(String, V)>) -> bool {
    forall|i: int, j: int|
        #![trigger entries[i], entries[j]]
        0 <= i < j < entries.len() ==> entries[i].0@ != entries[j].0@
}

/// The key stands at position `i` of the entries.
pub open spec fn key_at<V>(entries: Seq<(String, V)>, key: Seq<char>, i: int) -> bool {
    0 <= i < entries.len() && entries[i].0@ == key
}

/// The map that the entries write down.
pub open spec fn map_of<V: View>(entries: Seq<(String, V)>) -> Map<Seq<char>, V::V> {
    Map::new(
        |key: Seq<char>| exists|i: int| key_at(entries, key, i),
        |key: Seq<char>| entries[choose|i: int| key_at(entries, key, i)].1@,
    )
}

impl<V: View> View for StringMap<V> {
    type V = Map<Seq<char>, V::V>;

    closed spec fn view(&self) -> Map<Seq<char>, V::V> {
        map_of(self.entries@)
    }
}

/// Each entry is in the map under its key.
proof fn lemma_entry<V: View>(entries: Seq<(String, V)>, i: int)
    requires
        keys_distinct(entries),
        0 <= i < entries.len(),
    ensures
        map_of(entries).contains_key(entries[i].0@),
        map_of(entries)[entries[i].0@] == entries[i].1@,
{
    let key = entries[i].0@;
    assert(key_at(entries, key, i));
    let j = choose|j: int| key_at(entries, key, j);
    assert(key_at(entries, key, j));
    assert(entries[i].0@ == entries[j].0@);
}

impl<V> StringMap<V> {
    #[verifier::type_invariant]
    spec fn well_formed(self) -> bool {
        keys_distinct(self.entries@)
    }
}

impl<V: View> StringMap<V> {
    /// The empty map.
    pub fn new() -> (r: Self)
        ensures
            r@ == Map::<Seq<char>, V::V>::empty(),
    {
        let r = StringMap { entries: Vec::new() };
        assert(r@ =~= Map::<Seq<char>, V::V>::empty()) by {
            assert forall|key: Seq<char>| !r@.contains_key(key) by {
                assert(!exists|i: int| key_at(r.entries@, key, i));
            }
        }
        r
    }

    /// The map with `value` under `key`, in place of what was there before.
    pub fn with(self, key: &str, value: V) -> (r: Self)
        ensures
            r@ == self@.insert(key@, value@),
    {
        proof {
            use_type_invariant(&self);
        }
        let ghost before = self.entries@;
        let mut entries = self.entries;
        let mut i: usize = 0;
        while i < entries.len()
            invariant
                i <= entries@.len(),
                entries@ == before,
                self@ == map_of(before),
                keys_distinct(before),
                forall|j: int| 0 <= j < i ==> (#[trigger] before[j]).0@ != key@,
            decreases entries@.len() - i,
        {
            if text::same_text(entries[i].0.as_str(), key) {
                entries.set(i, (key.to_string(), value));
                proof {
                    lemma_insert(before, entries@, i as int, key@, value@);
                }
                return StringMap { entries };
            }
            i += 1;
        }
        entries.push((key.to_string(), value));
        proof {
            lemma_insert(before, entries@, i as int, key@, value@);
        }
        StringMap { entries }
    }

    /// The entries: each key with its value, in no order that matters.
    pub fn entries(&self) -> (r: &Vec<(String, V)>)
        ensures
            keys_distinct(r@),
            map_of(r@) == self@,
    {
        proof {
            use_type_invariant(self);
        }
        &self.entries
    }
}

/// Entries that differ from distinct ones at `at` only, where they hold `key`
/// and `value` and no other entry holds `key`, write down the map with `key`
/// inserted.
proof fn lemma_insert<V: View>(
    before: Seq<(String, V)>,
    after: Seq<(String, V)>,
    at: int,
    key: Seq<char>,
    value: V::V,
)
    requires
        keys_distinct(before),
        0 <= at < after.len(),
        before.len() <= after.len() <= before.len() + 1,
        after.len() == before.len() + 1 ==> at == before.len(),
        after.len() == before.len() ==> before[at].0@ == key,
        forall|i: int| 0 <= i < before.len() && i != at ==> #[trigger] after[i] == before[i],
        forall|i: int| 0 <= i < at ==> (#[trigger] before[i]).0@ != key,
        after[at].0@ == key,
        after[at].1@ == value,
    ensures
        keys_distinct(after),
        map_of(after) == map_of(before).insert(key, value),
{
    assert(keys_distinct(after)) by {
        assert forall|i: int, j: int|
            #![trigger after[i], after[j]]
            0 <= i < j < after.len() implies after[i].0@ != after[j].0@ by {
            if i < before.len() {
                assert(before[i] == before[i]);
            }
            if j < before.len() {
                assert(before[j] == before[j]);
            }
        }
    }
    let inserted = map_of(before).insert(key, value);
    lemma_entry(after, at);
    assert forall|k: Seq<char>| #[trigger]
        map_of(after).contains_key(k) == inserted.contains_key(k) by {
        if map_of(after).contains_key(k) && k != key {
            let i = choose|i: int| key_at(after, k, i);
            assert(i != at);
            assert(key_at(before, k, i));
        }
        if map_of(before).contains_key(k) && k != key {
            let i = choose|i: int| key_at(before, k, i);
            assert(i != at);
            assert(after[i] == before[i]);
            assert(key_at(after, k, i));
        }
    }
    assert forall|k: Seq<char>| map_of(after).contains_key(k) implies #[trigger] map_of(after)[k]
        == inserted[k] by {
        if k != key {
            let i = choose|i: int| key_at(after, k, i);
            assert(i != at);
            lemma_entry(after, i);
            lemma_entry(before, i);
            assert(after[i] == before[i]);
        }
    }
    assert(map_of(after) =~= inserted);
}

/// A map holds a value under a key exactly where an entry says so.
pub proof fn law_entries_are_the_map<V: View>(
    entries: Seq<(String, V)>,
    key: Seq<char>,
    value: V::V,
)
    requires
        keys_distinct(entries),
    ensures
        map_of(entries).contains_pair(key, value) <==> exists|i: int|
            0 <= i < entries.len() && (#[trigger] entries[i]).0@ == key && entries[i].1@ == value,
{
    if map_of(entries).contains_pair(key, value) {
        let i = choose|i: int| key_at(entries, key, i);
        lemma_entry(entries, i);
        assert(entries[i].0@ == key);
    }
    assert forall|i: int|
        0 <= i < entries.len() && (#[trigger] entries[i]).0@ == key && entries[i].1@
            == value implies map_of(entries).contains_pair(key, value) by {
        lemma_entry(entries, i);
    }
}

} // verus!
