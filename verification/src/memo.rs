//! Memo tables: maps that only grow, and never overwrite an entry.

use vstd::prelude::*;

verus! {

/// A key of a memo table: a value with a mathematical model and an executable
/// test for equality of models.
pub trait MemoKey: Sized {
    /// What a key stands for in contracts.
    type Model;

    /// The model of this key.
    spec fn model(&self) -> Self::Model;

    /// Whether two keys have the same model.
    fn same(&self, other: &Self) -> (r: bool)
        ensures
            r == (self.model() == other.model()),
    ;
}

/// One remembered answer.
pub struct Entry<K, V> {
    pub key: K,
    pub value: V,
}

/// No two entries of `entries` have keys with the same model.
pub open spec fn distinct_keys<K: MemoKey, V>(entries: Seq<Entry<K, V>>) -> bool {
    forall|i: int, j: int|
        0 <= i < j < entries.len() ==> (#[trigger] entries[i]).key.model() != (
        #[trigger] entries[j]).key.model()
}

/// Some entry of `entries` is stored at index `i` under the key model `k`.
pub open spec fn holds_at<K: MemoKey, V>(entries: Seq<Entry<K, V>>, k: K::Model, i: int) -> bool {
    0 <= i < entries.len() && entries[i].key.model() == k
}

/// The map that a sequence of entries stands for.
pub open spec fn entries_map<K: MemoKey, V>(entries: Seq<Entry<K, V>>) -> Map<K::Model, V> {
    Map::new(
        |k: K::Model| exists|i: int| holds_at(entries, k, i),
        |k: K::Model| entries[choose|i: int| holds_at(entries, k, i)].value,
    )
}

/// The key models of a sequence of entries.
pub open spec fn entry_keys<K: MemoKey, V>(entries: Seq<Entry<K, V>>) -> Seq<K::Model> {
    entries.map_values(|e: Entry<K, V>| e.key.model())
}

/// `k` occurs in `keys`, and at one position only.
pub open spec fn occurs_once<A>(keys: Seq<A>, k: A) -> bool {
    exists|i: int|
        0 <= i < keys.len() && keys[i] == k && forall|j: int|
            0 <= j < keys.len() && keys[j] == k ==> j == i
}

/// With distinct keys, a key that is held is held by one entry only.
proof fn lemma_held_once<K: MemoKey, V>(entries: Seq<Entry<K, V>>, i: int)
    requires
        distinct_keys(entries),
        0 <= i < entries.len(),
    ensures
        occurs_once(entry_keys(entries), entries[i].key.model()),
{
    let keys = entry_keys(entries);
    let k = entries[i].key.model();
    assert(keys[i] == k);
    assert forall|j: int| 0 <= j < keys.len() && keys[j] == k implies j == i by {
        if j < i {
            assert(entries[j].key.model() != entries[i].key.model());
        } else if i < j {
            assert(entries[i].key.model() != entries[j].key.model());
        }
    }
}

/// With distinct keys, the entry at index `i` is the one the map gives for its key.
proof fn lemma_entry_in_map<K: MemoKey, V>(entries: Seq<Entry<K, V>>, i: int)
    requires
        distinct_keys(entries),
        0 <= i < entries.len(),
    ensures
        entries_map(entries).contains_key(entries[i].key.model()),
        entries_map(entries)[entries[i].key.model()] == entries[i].value,
{
    let k = entries[i].key.model();
    assert(holds_at(entries, k, i));
    let j = choose|j: int| holds_at(entries, k, j);
    assert(holds_at(entries, k, j));
    if j != i {
        if j < i {
            assert(entries[j].key.model() != entries[i].key.model());
        } else {
            assert(entries[i].key.model() != entries[j].key.model());
        }
    }
}

/// Appending an entry under a key that is not yet held inserts it into the map
/// and keeps the keys distinct.
proof fn lemma_push_absent<K: MemoKey, V>(entries: Seq<Entry<K, V>>, e: Entry<K, V>)
    requires
        distinct_keys(entries),
        !entries_map(entries).contains_key(e.key.model()),
    ensures
        distinct_keys(entries.push(e)),
        entries_map(entries.push(e)) == entries_map(entries).insert(e.key.model(), e.value),
{
    let after = entries.push(e);
    let k = e.key.model();
    assert forall|i: int, j: int| 0 <= i < j < after.len() implies (#[trigger] after[i]).key.model()
        != (#[trigger] after[j]).key.model() by {
        if j == entries.len() {
            assert(after[i] == entries[i]);
            if entries[i].key.model() == k {
                assert(holds_at(entries, k, i));
            }
        } else {
            assert(after[i] == entries[i]);
            assert(after[j] == entries[j]);
        }
    }
    let m1 = entries_map(after);
    let m2 = entries_map(entries).insert(k, e.value);
    assert forall|q: K::Model| m1.contains_key(q) <==> m2.contains_key(q) by {
        if m1.contains_key(q) {
            let i = choose|i: int| holds_at(after, q, i);
            if i < entries.len() {
                assert(after[i] == entries[i]);
                assert(holds_at(entries, q, i));
            }
        }
        if m2.contains_key(q) {
            if q == k {
                assert(holds_at(after, q, entries.len() as int));
            } else {
                let i = choose|i: int| holds_at(entries, q, i);
                assert(after[i] == entries[i]);
                assert(holds_at(after, q, i));
            }
        }
    }
    assert forall|q: K::Model| m1.contains_key(q) implies m1[q] == m2[q] by {
        let i = choose|i: int| holds_at(after, q, i);
        assert(holds_at(after, q, i));
        lemma_entry_in_map(after, i);
        if i < entries.len() {
            assert(after[i] == entries[i]);
            lemma_entry_in_map(entries, i);
        }
    }
    assert(m1 =~= m2);
}

/// What a memoized lookup answers: the value remembered for `key`, or `fresh`
/// where none is remembered.
pub open spec fn memo_answer<K, V>(table: Map<K, V>, key: K, fresh: V) -> V {
    if table.contains_key(key) {
        table[key]
    } else {
        fresh
    }
}

/// The table after a memoized lookup: `fresh` is remembered for `key` unless a
/// value was remembered for it already.
pub open spec fn memo_after<K, V>(table: Map<K, V>, key: K, fresh: V) -> Map<K, V> {
    if table.contains_key(key) {
        table
    } else {
        table.insert(key, fresh)
    }
}

/// A lookup that is repeated gives the answer of the first lookup and leaves
/// the table as the first lookup left it, whatever a fresh computation would
/// give the second time.
pub proof fn law_memo_repeat<K, V>(table: Map<K, V>, key: K, first: V, second: V)
    ensures
        memo_answer(memo_after(table, key, first), key, second) == memo_answer(table, key, first),
        memo_after(memo_after(table, key, first), key, second) == memo_after(table, key, first),
{
}

/// The table after a memoized lookup of `key` for each of `answers` in turn.
pub open spec fn memo_after_all<K, V>(table: Map<K, V>, key: K, answers: Seq<V>) -> Map<K, V>
    decreases answers.len(),
{
    if answers.len() == 0 {
        table
    } else {
        memo_after(memo_after_all(table, key, answers.drop_last()), key, answers.last())
    }
}

/// However many lookups of a key come after the first, each with a fresh
/// answer of its own: the answer of the first stands. Every later lookup is
/// given it, and the table stays as the first lookup left it.
pub proof fn law_first_answer_stands<K, V>(table: Map<K, V>, key: K, first: V, later: Seq<V>)
    ensures
        memo_after_all(memo_after(table, key, first), key, later) == memo_after(table, key, first),
        forall|i: int|
            0 <= i < later.len() ==> memo_answer(
                memo_after_all(memo_after(table, key, first), key, later.take(i)),
                key,
                #[trigger] later[i],
            ) == memo_answer(table, key, first),
    decreases later.len(),
{
    let once = memo_after(table, key, first);
    if later.len() > 0 {
        law_first_answer_stands(table, key, first, later.drop_last());
        assert forall|i: int| 0 <= i < later.len() implies memo_answer(
            memo_after_all(once, key, later.take(i)),
            key,
            #[trigger] later[i],
        ) == memo_answer(table, key, first) by {
            if i < later.len() - 1 {
                assert(later.drop_last().take(i) =~= later.take(i));
                assert(later.drop_last()[i] == later[i]);
            } else {
                assert(later.take(i) =~= later.drop_last());
            }
        }
    }
}

/// A table only grows: whatever was remembered before a lookup is remembered
/// after it, with the same value.
pub proof fn law_memo_grows<K, V>(table: Map<K, V>, key: K, fresh: V)
    ensures
        table.submap_of(memo_after(table, key, fresh)),
        memo_after(table, key, fresh).contains_key(key),
        memo_after(table, key, fresh)[key] == memo_answer(table, key, fresh),
{
}

/// A lookup leaves what is remembered for other keys as it was.
pub proof fn law_memo_keeps_others<K, V>(table: Map<K, V>, key: K, fresh: V, other: K)
    requires
        other != key,
    ensures
        memo_after(table, key, fresh).contains_key(other) == table.contains_key(other),
        table.contains_key(other) ==> memo_after(table, key, fresh)[other] == table[other],
{
}

/// A memo table: a finite map from key models to values that only grows.
///
/// An entry, once made, is never replaced or removed, so an answer that was
/// given for a key is the answer for that key from then on.
pub struct Memo<K: MemoKey, V> {
    entries: Vec<Entry<K, V>>,
}

impl<K: MemoKey, V> Memo<K, V> {
    #[verifier::type_invariant]
    spec fn keys_are_distinct(&self) -> bool {
        distinct_keys(self.entries@)
    }

    /// The entries in the order in which they were made.
    pub closed spec fn entries(&self) -> Seq<Entry<K, V>> {
        self.entries@
    }

    /// The map from key models to remembered values.
    pub open spec fn view(&self) -> Map<K::Model, V> {
        entries_map(self.entries())
    }

    /// The key models of the entries, in the order in which they were made.
    pub open spec fn keys(&self) -> Seq<K::Model> {
        entry_keys(self.entries())
    }

    /// A table with no entries.
    pub fn new() -> (r: Self)
        ensures
            r.entries() == Seq::<Entry<K, V>>::empty(),
            r@ == Map::<K::Model, V>::empty(),
    {
        let r = Memo { entries: Vec::new() };
        assert(r@ =~= Map::<K::Model, V>::empty());
        r
    }

    /// The number of entries.
    pub fn len(&self) -> (n: usize)
        ensures
            n == self.entries().len(),
    {
        self.entries.len()
    }

    /// The index of the entry held under `key`, if there is one.
    fn position(&self, key: &K) -> (r: Option<usize>)
        ensures
            match r {
                Some(i) => holds_at(self.entries(), key.model(), i as int),
                None => !self@.contains_key(key.model()),
            },
    {
        let mut i: usize = 0;
        while i < self.entries.len()
            invariant
                i <= self.entries.len(),
                forall|j: int| 0 <= j < i ==> !holds_at(self.entries@, key.model(), j),
            decreases self.entries.len() - i,
        {
            if self.entries[i].key.same(key) {
                return Some(i);
            }
            i += 1;
        }
        None
    }

    /// Whether a value is remembered for `key`.
    pub fn contains(&self, key: &K) -> (r: bool)
        ensures
            r == self@.contains_key(key.model()),
    {
        match self.position(key) {
            Some(i) => {
                proof {
                    use_type_invariant(self);
                    lemma_entry_in_map(self.entries@, i as int);
                }
                true
            },
            None => false,
        }
    }

    /// The value remembered for `key`, if any.
    pub fn get(&self, key: &K) -> (r: Option<&V>)
        ensures
            match r {
                Some(v) => self@.contains_key(key.model()) && self@[key.model()] == *v
                    && occurs_once(self.keys(), key.model()),
                None => !self@.contains_key(key.model()),
            },
    {
        match self.position(key) {
            Some(i) => {
                proof {
                    use_type_invariant(self);
                    lemma_entry_in_map(self.entries@, i as int);
                    lemma_held_once(self.entries@, i as int);
                }
                Some(&self.entries[i].value)
            },
            None => None,
        }
    }

    /// Remembers `value` for `key` unless a value is already remembered for it,
    /// and returns the value that the table holds for `key` afterwards.
    pub fn insert_if_absent(&mut self, key: K, value: V) -> (r: &V)
        ensures
            old(self)@.contains_key(key.model()) ==> final(self).entries() == old(self).entries()
                && *r == old(self)@[key.model()],
            !old(self)@.contains_key(key.model()) ==> final(self).entries() == old(
                self,
            ).entries().push(Entry { key, value }) && final(self)@ == old(self)@.insert(
                key.model(),
                value,
            ) && *r == value,
            *r == memo_answer(old(self)@, key.model(), value),
            final(self)@ == memo_after(old(self)@, key.model(), value),
            occurs_once(final(self).keys(), key.model()),
            final(self)@.contains_key(key.model()),
            final(self)@[key.model()] == *r,
    {
        proof {
            use_type_invariant(&*self);
        }
        let at = match self.position(&key) {
            Some(i) => {
                proof {
                    lemma_entry_in_map(self.entries@, i as int);
                    lemma_held_once(self.entries@, i as int);
                }
                i
            },
            None => {
                proof {
                    lemma_push_absent(self.entries@, Entry { key, value });
                }
                let mut entries: Vec<Entry<K, V>> = Vec::new();
                std::mem::swap(&mut entries, &mut self.entries);
                entries.push(Entry { key, value });
                self.entries = entries;
                proof {
                    lemma_entry_in_map(self.entries@, self.entries@.len() - 1);
                    lemma_held_once(self.entries@, self.entries@.len() - 1);
                }
                self.entries.len() - 1
            },
        };
        &self.entries[at].value
    }
}

} // verus!
