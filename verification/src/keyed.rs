//! A map keyed by text, kept as a list of pairs.

use crate::text::str_eq;
use vstd::prelude::*;

verus! {

/// Values by text key.
#[derive(Debug)]
pub struct TextMap<V> {
    entries: Vec<(String, V)>,
}

/// The pairs with their keys as character sequences.
pub open spec fn keyed_pairs<V>(v: Seq<(String, V)>) -> Seq<(Seq<char>, V)> {
    v.map_values(|p: (String, V)| (p.0@, p.1))
}

/// No key comes twice.
pub open spec fn distinct_keys<V>(pairs: Seq<(Seq<char>, V)>) -> bool {
    forall|a: int, b: int| 0 <= a < b < pairs.len() ==> (#[trigger] pairs[a]).0 != (#[trigger] pairs[b]).0
}

/// The value of each key: the first pair with the key gives it.
pub open spec fn first_wins<V>(pairs: Seq<(Seq<char>, V)>) -> Map<Seq<char>, V>
    decreases pairs.len(),
{
    if pairs.len() == 0 {
        Map::empty()
    } else {
        let m = first_wins(pairs.drop_last());
        if m.contains_key(pairs.last().0) {
            m
        } else {
            m.insert(pairs.last().0, pairs.last().1)
        }
    }
}

/// `p` is the first position of `k` among the keys.
pub open spec fn first_key_at<V>(pairs: Seq<(Seq<char>, V)>, k: Seq<char>, p: int) -> bool {
    &&& 0 <= p < pairs.len()
    &&& pairs[p].0 == k
    &&& forall|j: int| 0 <= j < p ==> (#[trigger] pairs[j]).0 != k
}

/// The pairs whose key is not `k`, in order.
pub open spec fn without_key<V>(pairs: Seq<(Seq<char>, V)>, k: Seq<char>) -> Seq<(Seq<char>, V)>
    decreases pairs.len(),
{
    if pairs.len() == 0 {
        pairs
    } else {
        let rest = without_key(pairs.drop_last(), k);
        if pairs.last().0 == k {
            rest
        } else {
            rest.push(pairs.last())
        }
    }
}

impl<V> View for TextMap<V> {
    type V = Map<Seq<char>, V>;

    closed spec fn view(&self) -> Map<Seq<char>, V> {
        first_wins(keyed_pairs(self.entries@))
    }
}

proof fn lemma_absent<V>(pairs: Seq<(Seq<char>, V)>, k: Seq<char>)
    requires
        forall|j: int| 0 <= j < pairs.len() ==> (#[trigger] pairs[j]).0 != k,
    ensures
        !first_wins(pairs).contains_key(k),
    decreases pairs.len(),
{
    if pairs.len() > 0 {
        let d = pairs.drop_last();
        assert forall|j: int| 0 <= j < d.len() implies (#[trigger] d[j]).0 != k by {
            assert(d[j] == pairs[j]);
        }
        lemma_absent(d, k);
        assert(pairs[pairs.len() - 1] == pairs.last());
    }
}

proof fn lemma_first<V>(pairs: Seq<(Seq<char>, V)>, k: Seq<char>, p: int)
    requires
        first_key_at(pairs, k, p),
    ensures
        first_wins(pairs).contains_key(k),
        first_wins(pairs)[k] == pairs[p].1,
    decreases pairs.len(),
{
    let d = pairs.drop_last();
    if p == pairs.len() - 1 {
        assert forall|j: int| 0 <= j < d.len() implies (#[trigger] d[j]).0 != k by {
            assert(d[j] == pairs[j]);
        }
        lemma_absent(d, k);
    } else {
        assert(d[p] == pairs[p]);
        assert forall|j: int| 0 <= j < p implies (#[trigger] d[j]).0 != k by {
            assert(d[j] == pairs[j]);
        }
        lemma_first(d, k, p);
    }
}

proof fn lemma_update_first<V>(pairs: Seq<(Seq<char>, V)>, k: Seq<char>, p: int, v: V)
    requires
        first_key_at(pairs, k, p),
    ensures
        first_wins(pairs.update(p, (k, v))) =~= first_wins(pairs).insert(k, v),
    decreases pairs.len(),
{
    let d = pairs.drop_last();
    let u = pairs.update(p, (k, v));
    if p == pairs.len() - 1 {
        assert(u.drop_last() =~= d);
        assert forall|j: int| 0 <= j < d.len() implies (#[trigger] d[j]).0 != k by {
            assert(d[j] == pairs[j]);
        }
        lemma_absent(d, k);
    } else {
        assert(u.drop_last() =~= d.update(p, (k, v)));
        assert(u.last() == pairs.last());
        assert(d[p] == pairs[p]);
        assert forall|j: int| 0 <= j < p implies (#[trigger] d[j]).0 != k by {
            assert(d[j] == pairs[j]);
        }
        lemma_update_first(d, k, p, v);
        lemma_first(d, k, p);
    }
}

proof fn lemma_without_key<V>(pairs: Seq<(Seq<char>, V)>, k: Seq<char>)
    ensures
        first_wins(without_key(pairs, k)) =~= first_wins(pairs).remove(k),
    decreases pairs.len(),
{
    if pairs.len() > 0 {
        let d = pairs.drop_last();
        let l = pairs.last();
        lemma_without_key(d, k);
        let m = first_wins(d);
        let r = without_key(d, k);
        if l.0 == k {
            assert(first_wins(pairs).remove(k) =~= m.remove(k));
        } else {
            assert(r.push(l).drop_last() =~= r);
            assert(r.push(l).last() == l);
            assert(m.remove(k).contains_key(l.0) == m.contains_key(l.0));
            if !m.contains_key(l.0) {
                assert(m.remove(k).insert(l.0, l.1) =~= m.insert(l.0, l.1).remove(k));
            }
        }
    }
}

fn find_key<V>(entries: &Vec<(String, V)>, key: &str) -> (r: Option<usize>)
    ensures
        match r {
            Some(p) => first_key_at(keyed_pairs(entries@), key@, p as int),
            None => forall|j: int|
                0 <= j < keyed_pairs(entries@).len() ==> (#[trigger] keyed_pairs(entries@)[j]).0
                    != key@,
        },
{
    let ghost pairs = keyed_pairs(entries@);
    let mut i: usize = 0;
    while i < entries.len()
        invariant
            i <= entries.len(),
            pairs == keyed_pairs(entries@),
            forall|j: int| 0 <= j < i ==> (#[trigger] pairs[j]).0 != key@,
        decreases entries.len() - i,
    {
        if str_eq(entries[i].0.as_str(), key) {
            return Some(i);
        }
        i = i + 1;
    }
    None
}

impl<V> TextMap<V> {
    /// An empty map.
    pub fn new() -> (r: Self)
        ensures
            r@ == Map::<Seq<char>, V>::empty(),
    {
        let r = TextMap { entries: Vec::new() };
        assert(keyed_pairs(r.entries@) =~= Seq::<(Seq<char>, V)>::empty());
        r
    }

    /// Whether `key` has a value.
    pub fn contains_key(&self, key: &str) -> (r: bool)
        ensures
            r == self@.contains_key(key@),
    {
        match find_key(&self.entries, key) {
            Some(p) => {
                proof {
                    lemma_first(keyed_pairs(self.entries@), key@, p as int);
                }
                true
            },
            None => {
                proof {
                    lemma_absent(keyed_pairs(self.entries@), key@);
                }
                false
            },
        }
    }

    /// The value of `key`, if it has one.
    pub fn get(&self, key: &str) -> (r: Option<&V>)
        ensures
            match r {
                Some(v) => self@.contains_key(key@) && *v == self@[key@],
                None => !self@.contains_key(key@),
            },
    {
        match find_key(&self.entries, key) {
            Some(p) => {
                proof {
                    lemma_first(keyed_pairs(self.entries@), key@, p as int);
                    assert(keyed_pairs(self.entries@)[p as int].1 == self.entries@[p as int].1);
                }
                Some(&self.entries[p].1)
            },
            None => {
                proof {
                    lemma_absent(keyed_pairs(self.entries@), key@);
                }
                None
            },
        }
    }

    /// Gives `key` the value `value`.
    pub fn insert(&mut self, key: String, value: V)
        ensures
            final(self)@ == old(self)@.insert(key@, value),
    {
        let ghost pairs = keyed_pairs(self.entries@);
        let ghost kv = key@;
        match find_key(&self.entries, key.as_str()) {
            Some(p) => {
                let ghost v = value;
                self.entries.set(p, (key, value));
                proof {
                    lemma_update_first(pairs, kv, p as int, v);
                    assert(keyed_pairs(self.entries@) =~= pairs.update(p as int, (kv, v)));
                }
            },
            None => {
                proof {
                    lemma_absent(pairs, kv);
                }
                let ghost v = value;
                self.entries.push((key, value));
                proof {
                    assert(keyed_pairs(self.entries@) =~= pairs.push((kv, v)));
                    assert(keyed_pairs(self.entries@).drop_last() =~= pairs);
                }
            },
        }
    }

    /// Drops the value of `key`.
    pub fn remove(&mut self, key: &str)
        ensures
            final(self)@ == old(self)@.remove(key@),
    {
        let _ = self.take(key);
    }

    /// Drops the value of `key` and hands it back, if it had one.
    pub fn take(&mut self, key: &str) -> (r: Option<V>)
        ensures
            final(self)@ == old(self)@.remove(key@),
            match r {
                Some(v) => old(self)@.contains_key(key@) && v == old(self)@[key@],
                None => !old(self)@.contains_key(key@),
            },
    {
        let ghost pairs = keyed_pairs(self.entries@);
        let mut kept: Vec<(String, V)> = Vec::new();
        let mut old_entries: Vec<(String, V)> = Vec::new();
        std::mem::swap(&mut old_entries, &mut self.entries);
        let n = old_entries.len();
        let ghost all = old_entries@;
        assert(all.len() == n);
        assert(pairs == keyed_pairs(all));
        let mut found: Option<V> = None;
        let mut i: usize = 0;
        let mut rest = old_entries;
        assert(keyed_pairs(kept@) =~= without_key(keyed_pairs(all.take(0)), key@));
        assert(rest@ =~= all.skip(0));
        while rest.len() > 0
            invariant
                all.len() <= usize::MAX,
                i + rest.len() == all.len(),
                rest@ == all.skip(i as int),
                keyed_pairs(kept@) == without_key(keyed_pairs(all.take(i as int)), key@),
                match found {
                    Some(v) => first_wins(keyed_pairs(all.take(i as int))).contains_key(key@)
                        && v == first_wins(keyed_pairs(all.take(i as int)))[key@],
                    None => !first_wins(keyed_pairs(all.take(i as int))).contains_key(key@),
                },
            decreases rest.len(),
        {
            let ghost before = keyed_pairs(kept@);
            let item = rest.remove(0);
            assert(item == all[i as int]);
            assert(rest@ =~= all.skip(i + 1));
            assert(all.take(i + 1).drop_last() =~= all.take(i as int));
            assert(keyed_pairs(all.take(i + 1)).drop_last() =~= keyed_pairs(all.take(i as int)));
            assert(keyed_pairs(all.take(i + 1)).last() == (item.0@, item.1));
            if !str_eq(item.0.as_str(), key) {
                let ghost iv = (item.0@, item.1);
                kept.push(item);
                assert(keyed_pairs(kept@) =~= before.push(iv));
            } else if found.is_none() {
                found = Some(item.1);
            }
            i = i + 1;
        }
        assert(all.take(all.len() as int) =~= all);
        proof {
            lemma_without_key(pairs, key@);
        }
        self.entries = kept;
        found
    }

    /// Empties the map and hands back its pairs, each key once, in the
    /// order they were first given a value.
    pub fn drain(&mut self) -> (r: Vec<(String, V)>)
        ensures
            final(self)@ == Map::<Seq<char>, V>::empty(),
            distinct_keys(keyed_pairs(r@)),
            first_wins(keyed_pairs(r@)) == old(self)@,
    {
        let ghost all = self.entries@;
        let mut rest: Vec<(String, V)> = Vec::new();
        std::mem::swap(&mut rest, &mut self.entries);
        assert(rest@ == all);
        let n = rest.len();
        assert(all.len() == n);
        assert(keyed_pairs(self.entries@) =~= Seq::<(Seq<char>, V)>::empty());
        let mut kept: Vec<(String, V)> = Vec::new();
        let mut i: usize = 0;
        assert(all.take(0) =~= Seq::<(String, V)>::empty());
        assert(keyed_pairs(kept@) =~= Seq::<(Seq<char>, V)>::empty());
        assert(rest@ =~= all.skip(0));
        while rest.len() > 0
            invariant
                all.len() <= usize::MAX,
                i + rest.len() == all.len(),
                rest@ == all.skip(i as int),
                distinct_keys(keyed_pairs(kept@)),
                first_wins(keyed_pairs(kept@)) == first_wins(keyed_pairs(all.take(i as int))),
                keyed_pairs(self.entries@) == Seq::<(Seq<char>, V)>::empty(),
            decreases rest.len(),
        {
            let item = rest.remove(0);
            assert(item == all[i as int]);
            assert(rest@ =~= all.skip(i + 1));
            assert(all.take(i + 1).drop_last() =~= all.take(i as int));
            assert(keyed_pairs(all.take(i + 1)).drop_last() =~= keyed_pairs(all.take(i as int)));
            assert(keyed_pairs(all.take(i + 1)).last() == (item.0@, item.1));
            match find_key(&kept, item.0.as_str()) {
                Some(p) => {
                    proof {
                        lemma_first(keyed_pairs(kept@), item.0@, p as int);
                    }
                },
                None => {
                    proof {
                        lemma_absent(keyed_pairs(kept@), item.0@);
                    }
                    let ghost before = keyed_pairs(kept@);
                    let ghost iv = (item.0@, item.1);
                    kept.push(item);
                    assert(keyed_pairs(kept@) =~= before.push(iv));
                    assert(keyed_pairs(kept@).drop_last() =~= before);
                    assert forall|a: int, b: int|
                        0 <= a < b < keyed_pairs(kept@).len() implies (#[trigger] keyed_pairs(kept@)[a]).0
                        != (#[trigger] keyed_pairs(kept@)[b]).0 by {
                        if b < before.len() {
                            assert(keyed_pairs(kept@)[a] == before[a]);
                            assert(keyed_pairs(kept@)[b] == before[b]);
                        } else {
                            assert(keyed_pairs(kept@)[a] == before[a]);
                        }
                    }
                },
            }
            i = i + 1;
        }
        assert(all.take(all.len() as int) =~= all);
        kept
    }
}

} // verus!
