use vstd::prelude::*;
use crate::text::{str_eq, chars_of, has_prefix, starts_with_chars};

verus! {

/// A map from text keys to values, kept as a list of entries with
/// distinct keys.
pub struct StrMap<V> {
    entries: Vec<(String, V)>,
}

/// The map held by entries with distinct keys.
pub open spec fn entries_map<V>(e: Seq<(String, V)>) -> Map<Seq<char>, V>
    decreases e.len(),
{
    if e.len() == 0 {
        Map::empty()
    } else {
        entries_map(e.drop_last()).insert(e.last().0@, e.last().1)
    }
}

/// Whether no two entries have the same key.
pub open spec fn distinct_keys<V>(e: Seq<(String, V)>) -> bool {
    forall|i: int, j: int| 0 <= i < j < e.len() ==> #[trigger] e[i].0@ != #[trigger] e[j].0@
}

proof fn lemma_entries_map_has<V>(e: Seq<(String, V)>, k: Seq<char>)
    requires
        distinct_keys(e),
    ensures
        entries_map(e).contains_key(k) <==> exists|i: int| 0 <= i < e.len() && #[trigger] e[i].0@ == k,
        forall|i: int| 0 <= i < e.len() && #[trigger] e[i].0@ == k ==> entries_map(e)[k] == e[i].1,
    decreases e.len(),
{
    if e.len() > 0 {
        let d = e.drop_last();
        assert(distinct_keys(d));
        lemma_entries_map_has(d, k);
        if entries_map(e).contains_key(k) && e.last().0@ != k {
            let i = choose|i: int| 0 <= i < d.len() && #[trigger] d[i].0@ == k;
            assert(e[i] == d[i]);
        }
        assert forall|i: int| 0 <= i < e.len() && #[trigger] e[i].0@ == k implies entries_map(e)[k] == e[i].1 by {
            if i < e.len() - 1 {
                assert(e[i] == d[i]);
                assert(e[i].0@ != e[e.len() - 1].0@);
            }
        }
        if exists|i: int| 0 <= i < e.len() && #[trigger] e[i].0@ == k {
            let i = choose|i: int| 0 <= i < e.len() && #[trigger] e[i].0@ == k;
            if i < e.len() - 1 {
                assert(d[i] == e[i]);
            }
        }
    }
}

proof fn lemma_entries_map_finite<V>(e: Seq<(String, V)>)
    ensures
        entries_map(e).dom().finite(),
    decreases e.len(),
{
    if e.len() > 0 {
        lemma_entries_map_finite(e.drop_last());
    }
}

proof fn lemma_entries_map_len<V>(e: Seq<(String, V)>)
    requires
        distinct_keys(e),
    ensures
        entries_map(e).len() == e.len(),
    decreases e.len(),
{
    if e.len() > 0 {
        let d = e.drop_last();
        assert(distinct_keys(d));
        lemma_entries_map_len(d);
        lemma_entries_map_finite(d);
        lemma_entries_map_has(d, e.last().0@);
        if entries_map(d).contains_key(e.last().0@) {
            let i = choose|i: int| 0 <= i < d.len() && #[trigger] d[i].0@ == e.last().0@;
            assert(e[i] == d[i]);
        }
    }
}

impl<V> StrMap<V> {
    #[verifier::type_invariant]
    spec fn keys_distinct(self) -> bool {
        distinct_keys(self.entries@)
    }

    /// The map held.
    pub closed spec fn map(self) -> Map<Seq<char>, V> {
        entries_map(self.entries@)
    }

    /// The map held has finitely many keys.
    pub proof fn lemma_map_finite(&self)
        ensures
            self.map().dom().finite(),
    {
        lemma_entries_map_finite(self.entries@);
    }

    /// An empty map.
    pub fn new() -> (r: Self)
        ensures
            r.map() == Map::<Seq<char>, V>::empty(),
    {
        StrMap { entries: Vec::new() }
    }

    fn position(&self, key: &str) -> (r: Option<usize>)
        ensures
            match r {
                Some(i) => i < self.entries@.len() && self.entries@[i as int].0@ == key@,
                None => forall|i: int| 0 <= i < self.entries@.len() ==> #[trigger] self.entries@[i].0@ != key@,
            },
    {
        let mut i: usize = 0;
        while i < self.entries.len()
            invariant
                i <= self.entries@.len(),
                forall|j: int| 0 <= j < i ==> #[trigger] self.entries@[j].0@ != key@,
            decreases self.entries.len() - i,
        {
            if str_eq(self.entries[i].0.as_str(), key) {
                return Some(i);
            }
            i = i + 1;
        }
        None
    }

    /// The number of keys.
    pub fn len(&self) -> (n: usize)
        ensures
            n == self.map().len(),
    {
        proof {
            use_type_invariant(self);
            lemma_entries_map_len(self.entries@);
        }
        self.entries.len()
    }

    /// The value of `key`, if it has one.
    pub fn get(&self, key: &str) -> (r: Option<&V>)
        ensures
            match r {
                Some(v) => self.map().contains_key(key@) && self.map()[key@] == *v,
                None => !self.map().contains_key(key@),
            },
    {
        proof {
            use_type_invariant(self);
            lemma_entries_map_has(self.entries@, key@);
        }
        match self.position(key) {
            Some(i) => Some(&self.entries[i].1),
            None => None,
        }
    }

    /// Gives `key` the value `value`, replacing any it had.
    pub fn insert(&mut self, key: &str, value: V)
        ensures
            final(self).map() == old(self).map().insert(key@, value),
    {
        proof {
            use_type_invariant(&*self);
        }
        let ghost before = self.entries@;
        match self.position(key) {
            Some(i) => {
                let mut entries: Vec<(String, V)> = Vec::new();
                std::mem::swap(&mut entries, &mut self.entries);
                entries.set(i, (String::from_str(key), value));
                proof {
                    let after = entries@;
                    assert(distinct_keys(after)) by {
                        assert forall|a: int, b: int| 0 <= a < b < after.len() implies #[trigger] after[a].0@
                            != #[trigger] after[b].0@ by {
                            if a != i as int {
                                assert(after[a] == before[a]);
                            }
                            if b != i as int {
                                assert(after[b] == before[b]);
                            }
                        }
                    }
                    assert(after[i as int].0@ == key@ && after[i as int].1 == value);
                    let target = entries_map(before).insert(key@, value);
                    assert forall|k: Seq<char>| #![trigger target.contains_key(k)] #![trigger entries_map(after).contains_key(k)]
                        entries_map(after).contains_key(k) == target.contains_key(k) && (entries_map(after).contains_key(k)
                        ==> entries_map(after)[k] == target[k]) by {
                        lemma_entries_map_has(after, k);
                        lemma_entries_map_has(before, k);
                        if k != key@ {
                            if entries_map(after).contains_key(k) {
                                let j = choose|j: int| 0 <= j < after.len() && #[trigger] after[j].0@ == k;
                                assert(after[j] == before[j]);
                            }
                            if entries_map(before).contains_key(k) {
                                let j = choose|j: int| 0 <= j < before.len() && #[trigger] before[j].0@ == k;
                                assert(j != i as int);
                                assert(after[j] == before[j]);
                            }
                        }
                    }
                    assert(entries_map(after) =~= target);
                }
                self.entries = entries;
            },
            None => {
                let mut entries: Vec<(String, V)> = Vec::new();
                std::mem::swap(&mut entries, &mut self.entries);
                entries.push((String::from_str(key), value));
                proof {
                    let after = entries@;
                    assert(after.drop_last() =~= before);
                    assert(distinct_keys(after)) by {
                        assert forall|a: int, b: int| 0 <= a < b < after.len() implies #[trigger] after[a].0@
                            != #[trigger] after[b].0@ by {
                            assert(after[a] == before[a]);
                            if b < before.len() {
                                assert(after[b] == before[b]);
                            }
                        }
                    }
                }
                self.entries = entries;
            },
        }
    }

    /// Takes the value of `key` out of the map, if it has one.
    pub fn take(&mut self, key: &str) -> (r: Option<V>)
        ensures
            final(self).map() == old(self).map().remove(key@),
            match r {
                Some(v) => old(self).map().contains_key(key@) && old(self).map()[key@] == v,
                None => !old(self).map().contains_key(key@),
            },
    {
        proof {
            use_type_invariant(&*self);
        }
        let ghost before = self.entries@;
        proof {
            lemma_entries_map_has(before, key@);
        }
        match self.position(key) {
            Some(i) => {
                let mut entries: Vec<(String, V)> = Vec::new();
                std::mem::swap(&mut entries, &mut self.entries);
                let removed = entries.remove(i);
                proof {
                    let after = entries@;
                    assert(after =~= before.remove(i as int));
                    assert(distinct_keys(after)) by {
                        assert forall|a: int, b: int| 0 <= a < b < after.len() implies #[trigger] after[a].0@
                            != #[trigger] after[b].0@ by {
                            let a0 = if a < i as int { a } else { a + 1 };
                            let b0 = if b < i as int { b } else { b + 1 };
                            assert(after[a] == before[a0] && after[b] == before[b0]);
                        }
                    }
                    let target = entries_map(before).remove(key@);
                    assert forall|k: Seq<char>| #![trigger target.contains_key(k)] #![trigger entries_map(after).contains_key(k)]
                        entries_map(after).contains_key(k) == target.contains_key(k) && (entries_map(after).contains_key(k)
                        ==> entries_map(after)[k] == target[k]) by {
                        lemma_entries_map_has(after, k);
                        lemma_entries_map_has(before, k);
                        if entries_map(after).contains_key(k) {
                            let j = choose|j: int| 0 <= j < after.len() && #[trigger] after[j].0@ == k;
                            let j0 = if j < i as int { j } else { j + 1 };
                            assert(after[j] == before[j0]);
                            assert(j0 != i as int);
                        }
                        if entries_map(before).contains_key(k) && k != key@ {
                            let j = choose|j: int| 0 <= j < before.len() && #[trigger] before[j].0@ == k;
                            assert(j != i as int);
                            let ja = if j < i as int { j } else { j - 1 };
                            assert(after[ja] == before[j]);
                        }
                    }
                    assert(entries_map(after) =~= target);
                }
                self.entries = entries;
                Some(removed.1)
            },
            None => {
                proof {
                    assert(entries_map(before).remove(key@) =~= entries_map(before));
                }
                None
            },
        }
    }

    /// Drops every key that starts with `prefix`.
    pub fn remove_prefixed(&mut self, prefix: &str)
        ensures
            final(self).map() == old(self).map().remove_keys(Set::new(|k: Seq<char>| has_prefix(k, prefix@))),
    {
        proof {
            use_type_invariant(&*self);
        }
        let ghost before = self.entries@;
        let p = chars_of(prefix);
        let mut old_entries: Vec<(String, V)> = Vec::new();
        std::mem::swap(&mut old_entries, &mut self.entries);
        let mut kept: Vec<(String, V)> = Vec::new();
        let ghost dropped = Set::new(|k: Seq<char>| has_prefix(k, prefix@));
        let mut rest = old_entries;
        let ghost mut done: int = 0;
        proof {
            assert(before.skip(0) =~= before);
            assert(entries_map(kept@) =~= entries_map(before.take(0)).remove_keys(dropped));
        }
        while rest.len() > 0
            invariant
                0 <= done <= before.len(),
                rest@ == before.skip(done),
                distinct_keys(before),
                distinct_keys(kept@),
                forall|i: int| 0 <= i < kept@.len() ==> exists|j: int| 0 <= j < done && #[trigger] kept@[i].0@ == before[j].0@,
                entries_map(kept@) == entries_map(before.take(done)).remove_keys(dropped),
                p@ == prefix@,
                dropped == Set::new(|k: Seq<char>| has_prefix(k, prefix@)),
            decreases rest.len(),
        {
            let e = rest.remove(0);
            proof {
                assert(e == before[done]);
                assert(rest@ =~= before.skip(done + 1));
                assert(before.take(done + 1).drop_last() =~= before.take(done));
                assert(before.take(done + 1).last() == e);
            }
            let k = chars_of(e.0.as_str());
            if starts_with_chars(&k, &p) {
                proof {
                    assert(dropped.contains(e.0@));
                    assert(entries_map(before.take(done + 1)).remove_keys(dropped) =~= entries_map(before.take(done)).remove_keys(dropped));
                }
            } else {
                let ghost kept_before = kept@;
                kept.push(e);
                proof {
                    assert(kept@.drop_last() =~= kept_before);
                    assert forall|i: int| 0 <= i < kept_before.len() implies kept_before[i].0@ != e.0@ by {
                        let j = choose|j: int| 0 <= j < done && #[trigger] kept_before[i].0@ == before[j].0@;
                    }
                    assert(distinct_keys(kept@)) by {
                        assert forall|a: int, b: int| 0 <= a < b < kept@.len() implies #[trigger] kept@[a].0@ != #[trigger] kept@[b].0@ by {
                            assert(kept@[a] == kept_before[a]);
                            if b < kept_before.len() {
                                assert(kept@[b] == kept_before[b]);
                            }
                        }
                    }
                    assert forall|i: int| 0 <= i < kept@.len() implies exists|j: int| 0 <= j < done + 1 && #[trigger] kept@[i].0@ == before[j].0@ by {
                        if i < kept_before.len() {
                            assert(kept@[i] == kept_before[i]);
                            let j = choose|j: int| 0 <= j < done && #[trigger] kept_before[i].0@ == before[j].0@;
                            assert(kept@[i].0@ == before[j].0@);
                        } else {
                            assert(kept@[i].0@ == before[done].0@);
                        }
                    }
                    assert(!dropped.contains(e.0@));
                    assert(entries_map(kept@) =~= entries_map(before.take(done + 1)).remove_keys(dropped));
                }
            }
            proof {
                done = done + 1;
            }
        }
        proof {
            assert(before.take(done) =~= before);
        }
        self.entries = kept;
    }
}

/// What a read gives back of a write: after `key` is given `value`,
/// reading `key` gives `value` and every other key reads as before; after
/// `key` is taken out, it reads as absent and every other key as before.
pub proof fn law_read_gives_last_write<V>(m: Map<Seq<char>, V>, key: Seq<char>, value: V, other: Seq<char>)
    requires
        other != key,
    ensures
        m.insert(key, value).contains_key(key) && m.insert(key, value)[key] == value,
        m.insert(key, value).contains_key(other) == m.contains_key(other),
        m.contains_key(other) ==> m.insert(key, value)[other] == m[other],
        !m.remove(key).contains_key(key),
        m.remove(key).contains_key(other) == m.contains_key(other),
        m.contains_key(other) ==> m.remove(key)[other] == m[other],
{
}

} // verus!
