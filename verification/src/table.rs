//! A small map from names to JSON values.
//!
//! A session's topic subscriptions and its scratch store are both maps from
//! a string key to a JSON value. They are short, so a vector of pairs holds
//! them; the view of the table is the mathematical map, and every operation
//! is stated over that map.

use vstd::prelude::*;
use crate::text::str_eq;

verus! {

/// The map that a sequence of pairs stands for: a later pair with the same
/// key replaces an earlier one.
pub open spec fn entries_map(entries: Seq<(String, serde_json::Value)>) -> Map<
    Seq<char>,
    serde_json::Value,
>
    decreases entries.len(),
{
    if entries.len() == 0 {
        Map::empty()
    } else {
        entries_map(entries.drop_last()).insert(entries.last().0@, entries.last().1)
    }
}

/// The value under `key`, if the map has one.
pub open spec fn lookup(m: Map<Seq<char>, serde_json::Value>, key: Seq<char>) -> Option<
    serde_json::Value,
> {
    if m.contains_key(key) {
        Some(m[key])
    } else {
        None
    }
}

proof fn lemma_entries_map_remove(entries: Seq<(String, serde_json::Value)>, at: int)
    requires
        0 <= at < entries.len(),
    ensures
        entries_map(entries.remove(at)).remove(entries[at].0@) == entries_map(entries).remove(
            entries[at].0@,
        ),
    decreases entries.len(),
{
    let key = entries[at].0@;
    if at == entries.len() - 1 {
        assert(entries.remove(at) =~= entries.drop_last());
        assert(entries_map(entries.drop_last()).insert(key, entries.last().1).remove(key)
            =~= entries_map(entries.drop_last()).remove(key));
    } else {
        let shorter = entries.drop_last();
        lemma_entries_map_remove(shorter, at);
        assert(entries.remove(at).drop_last() =~= shorter.remove(at));
        assert(entries.remove(at).last() == entries.last());
        let last_key = entries.last().0@;
        let last_value = entries.last().1;
        assert(entries_map(shorter.remove(at)).insert(last_key, last_value).remove(key)
            =~= entries_map(shorter).insert(last_key, last_value).remove(key)) by {
            assert(entries_map(shorter.remove(at)).remove(key) == entries_map(shorter).remove(key));
            if last_key == key {
                assert(entries_map(shorter.remove(at)).insert(last_key, last_value).remove(key)
                    =~= entries_map(shorter.remove(at)).remove(key));
                assert(entries_map(shorter).insert(last_key, last_value).remove(key)
                    =~= entries_map(shorter).remove(key));
            } else {
                assert(entries_map(shorter.remove(at)).insert(last_key, last_value).remove(key)
                    =~= entries_map(shorter.remove(at)).remove(key).insert(last_key, last_value));
                assert(entries_map(shorter).insert(last_key, last_value).remove(key)
                    =~= entries_map(shorter).remove(key).insert(last_key, last_value));
            }
        }
    }
}

proof fn lemma_entries_map_absent(entries: Seq<(String, serde_json::Value)>, key: Seq<char>)
    requires
        forall|j: int| 0 <= j < entries.len() ==> (#[trigger] entries[j]).0@ != key,
    ensures
        !entries_map(entries).contains_key(key),
    decreases entries.len(),
{
    if entries.len() > 0 {
        let shorter = entries.drop_last();
        assert forall|j: int| 0 <= j < shorter.len() implies (#[trigger] shorter[j]).0@ != key by {
            assert(shorter[j] == entries[j]);
        }
        lemma_entries_map_absent(shorter, key);
        assert(entries.last() == entries[entries.len() - 1]);
    }
}

proof fn lemma_entries_map_dom(entries: Seq<(String, serde_json::Value)>, key: Seq<char>)
    ensures
        entries_map(entries).contains_key(key) <==> exists|j: int|
            0 <= j < entries.len() && (#[trigger] entries[j]).0@ == key,
    decreases entries.len(),
{
    if entries.len() > 0 {
        let shorter = entries.drop_last();
        lemma_entries_map_dom(shorter, key);
        if entries_map(entries).contains_key(key) {
            if entries.last().0@ == key {
                assert(entries[entries.len() - 1].0@ == key);
            } else {
                let j = choose|j: int| 0 <= j < shorter.len() && (#[trigger] shorter[j]).0@ == key;
                assert(entries[j].0@ == key);
            }
        }
        if exists|j: int| 0 <= j < entries.len() && (#[trigger] entries[j]).0@ == key {
            let j = choose|j: int| 0 <= j < entries.len() && (#[trigger] entries[j]).0@ == key;
            if j < shorter.len() {
                assert(shorter[j].0@ == key);
            }
        }
    }
}

/// A map from string keys to JSON values.
pub struct JsonTable {
    entries: Vec<(String, serde_json::Value)>,
}

impl View for JsonTable {
    type V = Map<Seq<char>, serde_json::Value>;

    closed spec fn view(&self) -> Map<Seq<char>, serde_json::Value> {
        entries_map(self.entries@)
    }
}

impl JsonTable {
    /// The empty table.
    pub fn new() -> (table: Self)
        ensures
            table@ == Map::<Seq<char>, serde_json::Value>::empty(),
    {
        JsonTable { entries: Vec::new() }
    }

    /// The value stored under `key`.
    pub fn get(&self, key: &str) -> (found: Option<&serde_json::Value>)
        ensures
            match found {
                Some(value) => lookup(self@, key@) == Some(*value),
                None => lookup(self@, key@) is None,
            },
    {
        let mut i: usize = self.entries.len();
        proof {
            assert(self.entries@.take(i as int) =~= self.entries@);
        }
        while i > 0
            invariant
                i <= self.entries@.len(),
                lookup(entries_map(self.entries@), key@) == lookup(
                    entries_map(self.entries@.take(i as int)),
                    key@,
                ),
            decreases i,
        {
            let ghost prefix = self.entries@.take(i as int);
            proof {
                assert(prefix.drop_last() =~= self.entries@.take(i - 1));
                assert(prefix.last() == self.entries@[i - 1]);
            }
            i -= 1;
            if str_eq(self.entries[i].0.as_str(), key) {
                return Some(&self.entries[i].1);
            }
        }
        None
    }

    /// Whether a value is stored under `key`.
    pub fn contains_key(&self, key: &str) -> (found: bool)
        ensures
            found == self@.contains_key(key@),
    {
        self.get(key).is_some()
    }

    /// The keys of the table.
    pub fn keys(&self) -> (keys: Vec<String>)
        ensures
            forall|key: Seq<char>|
                self@.contains_key(key) <==> crate::text::name_views(keys@).contains(key),
    {
        let mut keys: Vec<String> = Vec::new();
        let mut i: usize = 0;
        while i < self.entries.len()
            invariant
                i <= self.entries@.len(),
                keys@.len() == i,
                forall|j: int| 0 <= j < i ==> (#[trigger] keys@[j])@ == self.entries@[j].0@,
            decreases self.entries@.len() - i,
        {
            keys.push(self.entries[i].0.clone());
            i += 1;
        }
        proof {
            let views = crate::text::name_views(keys@);
            assert forall|key: Seq<char>| self@.contains_key(key) <==> views.contains(key) by {
                lemma_entries_map_dom(self.entries@, key);
                if self@.contains_key(key) {
                    let j = choose|j: int|
                        0 <= j < self.entries@.len() && (#[trigger] self.entries@[j]).0@ == key;
                    assert(views[j] == keys@[j]@);
                }
                if views.contains(key) {
                    let j = choose|j: int| 0 <= j < views.len() && views[j] == key;
                    assert(keys@[j]@ == self.entries@[j].0@);
                }
            }
        }
        keys
    }

    /// Takes the entry under `key` out of the table and returns its value.
    pub fn remove(&mut self, key: &str) -> (removed: Option<serde_json::Value>)
        ensures
            final(self)@ == old(self)@.remove(key@),
            removed == lookup(old(self)@, key@),
    {
        let mut removed: Option<serde_json::Value> = None;
        let mut i: usize = self.entries.len();
        proof {
            assert(self.entries@.take(i as int) =~= self.entries@);
        }
        while i > 0
            invariant
                i <= self.entries@.len(),
                entries_map(self.entries@).remove(key@) == entries_map(old(self).entries@).remove(
                    key@,
                ),
                forall|j: int| i <= j < self.entries@.len() ==> (#[trigger] self.entries@[j]).0@ != key@,
                removed is None ==> lookup(entries_map(old(self).entries@), key@) == lookup(
                    entries_map(self.entries@.take(i as int)),
                    key@,
                ),
                removed is Some ==> removed == lookup(entries_map(old(self).entries@), key@),
            decreases i,
        {
            let ghost before = self.entries@;
            let ghost prefix = before.take(i as int);
            proof {
                assert(prefix.drop_last() =~= before.take(i - 1));
                assert(prefix.last() == before[i - 1]);
            }
            i -= 1;
            if str_eq(self.entries[i].0.as_str(), key) {
                proof {
                    lemma_entries_map_remove(before, i as int);
                }
                let entry = self.entries.remove(i);
                proof {
                    assert(self.entries@.take(i as int) =~= before.take(i as int));
                }
                if removed.is_none() {
                    removed = Some(entry.1);
                }
            }
        }
        proof {
            lemma_entries_map_absent(self.entries@, key@);
            assert(entries_map(self.entries@).remove(key@) =~= entries_map(self.entries@));
            assert(self.entries@.take(0) =~= Seq::empty());
        }
        removed
    }

    /// Stores `value` under `key` and returns the value it replaces.
    pub fn insert(&mut self, key: String, value: serde_json::Value) -> (replaced: Option<
        serde_json::Value,
    >)
        ensures
            final(self)@ == old(self)@.insert(key@, value),
            replaced == lookup(old(self)@, key@),
    {
        let replaced = self.remove(key.as_str());
        let ghost without = self.entries@;
        self.entries.push((key, value));
        proof {
            assert(self.entries@.drop_last() =~= without);
            assert(old(self)@.remove(key@).insert(key@, value) =~= old(self)@.insert(key@, value));
        }
        replaced
    }
}

/// A value written under a key is the value read back under it, and a write
/// leaves every other key as it was.
pub proof fn lemma_write_then_read(
    m: Map<Seq<char>, serde_json::Value>,
    key: Seq<char>,
    value: serde_json::Value,
    other: Seq<char>,
)
    ensures
        lookup(m.insert(key, value), key) == Some(value),
        other != key ==> lookup(m.insert(key, value), other) == lookup(m, other),
{
}

} // verus!
