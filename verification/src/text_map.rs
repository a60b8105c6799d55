//! A small map keyed by text, kept as a list of entries with distinct keys.
use vstd::prelude::*;
use vstd::string::*;
use crate::text::str_equal;

verus! {

/// A map from text keys to values. Entries keep the order in which their
/// keys first came in; no key occurs twice.
pub struct TextMap<V> {
    keys: Vec<String>,
    values: Vec<V>,
}

/// The position of `key` in `keys`, where it occurs.
pub open spec fn position_of(keys: Seq<Seq<char>>, key: Seq<char>) -> Option<int> {
    if exists|i: int| 0 <= i < keys.len() && keys[i] == key {
        Some(choose|i: int| 0 <= i < keys.len() && keys[i] == key)
    } else {
        None
    }
}

/// No two entries of `keys` are equal.
pub open spec fn distinct(keys: Seq<Seq<char>>) -> bool {
    forall|i: int, j: int| 0 <= i < j < keys.len() ==> keys[i] != keys[j]
}

impl<V> TextMap<V> {
    /// As many values as keys, and no key twice.
    pub closed spec fn wf(&self) -> bool {
        &&& self.keys.len() == self.values.len()
        &&& distinct(self.order())
    }

    /// The keys, in the order in which the entries are kept.
    pub closed spec fn order(&self) -> Seq<Seq<char>> {
        Seq::new(self.keys@.len(), |i: int| self.keys@[i]@)
    }

    /// The values, in the order of `order()`.
    pub closed spec fn items(&self) -> Seq<V> {
        self.values@
    }

    /// The entries as a mathematical map.
    pub open spec fn map(&self) -> Map<Seq<char>, V> {
        Map::new(
            |k: Seq<char>| self.order().contains(k),
            |k: Seq<char>| self.items()[position_of(self.order(), k).unwrap()],
        )
    }

    proof fn lemma_well_formed(&self)
        requires
            self.wf(),
        ensures
            self.order().len() == self.items().len(),
            distinct(self.order()),
            self.map().dom().finite(),
            self.map().dom().len() == self.order().len(),
            forall|i: int|
                0 <= i < self.order().len() ==> self.map().contains_key(#[trigger] self.order()[i])
                    && self.map()[self.order()[i]] == self.items()[i],
    {
        let keys = self.order();
        assert forall|i: int| 0 <= i < keys.len() implies self.map().contains_key(
            #[trigger] keys[i],
        ) && self.map()[keys[i]] == self.items()[i] by {
            assert(keys.contains(keys[i]));
            let p = position_of(keys, keys[i]).unwrap();
            assert(p == i);
        }
        lemma_distinct_keys_set(keys);
        assert(self.map().dom() =~= keys.to_set());
    }

    /// The map without entries.
    pub fn new() -> (m: Self)
        ensures
            m.wf(),
            m.order() == Seq::<Seq<char>>::empty(),
            m.items() == Seq::<V>::empty(),
            m.map() == Map::<Seq<char>, V>::empty(),
    {
        let m = TextMap { keys: Vec::new(), values: Vec::new() };
        assert(m.order() =~= Seq::<Seq<char>>::empty());
        assert(m.map() =~= Map::<Seq<char>, V>::empty());
        m
    }

    /// The number of entries. Every map holds as many values as keys, each
    /// key once, and its entries are those of `map()`.
    pub fn len(&self) -> (n: usize)
        requires
            self.wf(),
        ensures
            n == self.order().len(),
            n == self.items().len(),
            n == self.map().dom().len(),
            self.map().dom().finite(),
            distinct(self.order()),
            forall|i: int|
                0 <= i < self.order().len() ==> self.map().contains_key(#[trigger] self.order()[i])
                    && self.map()[self.order()[i]] == self.items()[i],
    {
        proof {
            self.lemma_well_formed();
        }
        self.keys.len()
    }

    /// The position of `key` among the entries.
    pub fn find(&self, key: &str) -> (r: Option<usize>)
        requires
            self.wf(),
        ensures
            match r {
                Some(i) => i < self.order().len() && self.order()[i as int] == key@
                    && self.map().contains_key(key@) && self.map()[key@] == self.items()[i as int],
                None => !self.order().contains(key@) && !self.map().contains_key(key@),
            },
    {
        proof {
            self.lemma_well_formed();
        }
        let mut i: usize = 0;
        while i < self.keys.len()
            invariant
                self.wf(),
                i <= self.keys.len(),
                self.keys.len() == self.order().len(),
                forall|k: int| 0 <= k < i ==> self.order()[k] != key@,
                forall|k: int| 0 <= k < self.keys.len() ==> self.order()[k] == self.keys@[k]@,
            decreases self.keys.len() - i,
        {
            if str_equal(self.keys[i].as_str(), key) {
                proof {
                    self.lemma_well_formed();
                }
                return Some(i);
            }
            i += 1;
        }
        None
    }

    /// Whether `key` is bound.
    pub fn contains_key(&self, key: &str) -> (r: bool)
        requires
            self.wf(),
        ensures
            r == self.map().contains_key(key@),
    {
        self.find(key).is_some()
    }

    /// The value that `key` is bound to.
    pub fn get(&self, key: &str) -> (r: Option<&V>)
        requires
            self.wf(),
        ensures
            match r {
                Some(v) => self.map().contains_key(key@) && *v == self.map()[key@],
                None => !self.map().contains_key(key@),
            },
    {
        match self.find(key) {
            Some(i) => Some(&self.values[i]),
            None => None,
        }
    }

    /// The key of the entry at position `i`.
    pub fn key_at(&self, i: usize) -> (k: &String)
        requires
            self.wf(),
            i < self.order().len(),
        ensures
            k@ == self.order()[i as int],
    {
        &self.keys[i]
    }

    /// The value of the entry at position `i`.
    pub fn value_at(&self, i: usize) -> (v: &V)
        requires
            self.wf(),
            i < self.items().len(),
        ensures
            *v == self.items()[i as int],
    {
        &self.values[i]
    }

    /// The values, in the order of the entries.
    pub fn values(&self) -> (values: &Vec<V>)
        ensures
            values@ == self.items(),
    {
        &self.values
    }

    /// Binds `key` to `value`. A key already present keeps its position and
    /// hands back its former value; a new key goes last.
    pub fn insert(&mut self, key: String, value: V) -> (former: Option<V>)
        requires
            old(self).wf(),
        ensures
            final(self).wf(),
            final(self).map() == old(self).map().insert(key@, value),
            former == if old(self).map().contains_key(key@) {
                Some(old(self).map()[key@])
            } else {
                None::<V>
            },
            old(self).map().contains_key(key@) ==> final(self).order() == old(self).order()
                && final(self).items().len() == old(self).items().len() && forall|i: int|
                0 <= i < old(self).items().len() ==> #[trigger] final(self).items()[i] == if old(
                    self,
                ).order()[i] == key@ {
                    value
                } else {
                    old(self).items()[i]
                },
            !old(self).map().contains_key(key@) ==> final(self).order() == old(self).order().push(
                key@,
            ) && final(self).items() == old(self).items().push(value),
    {
        proof {
            self.lemma_well_formed();
        }
        let found = self.find(key.as_str());
        let ghost before = *self;
        match found {
            Some(i) => {
                let mut slot = value;
                let ghost old_values = self.values@;
                std::mem::swap(&mut slot, &mut self.values[i]);
                proof {
                    assert(self.order() =~= before.order());
                    assert(distinct(self.order()));
                    assert(self.values@ =~= old_values.update(i as int, value));
                    assert forall|k: Seq<char>| #[trigger]
                        self.map().contains_key(k) <==> before.map().insert(
                            key@,
                            value,
                        ).contains_key(k) by {
                        assert(before.order().contains(key@));
                    }
                    assert forall|k: Seq<char>| #[trigger] self.map().contains_key(k) implies self.map()[k]
                        == before.map().insert(key@, value)[k] by {
                        let p = position_of(self.order(), k).unwrap();
                        if k == key@ {
                            assert(p == i);
                        } else {
                            assert(p != i);
                        }
                    }
                    assert(self.map() =~= before.map().insert(key@, value));
                }
                Some(slot)
            },
            None => {
                let ghost key_view = key@;
                self.keys.push(key);
                self.values.push(value);
                proof {
                    assert(self.order() =~= before.order().push(key_view));
                    assert(distinct(self.order()));
                    let n = before.order().len() as int;
                    assert(self.order()[n] == key_view);
                    assert forall|k: Seq<char>| #[trigger]
                        self.map().contains_key(k) <==> before.map().insert(
                            key_view,
                            value,
                        ).contains_key(k) by {
                        if k == key_view {
                            assert(self.order().contains(k));
                        } else if before.order().contains(k) {
                            let j = choose|j: int| 0 <= j < before.order().len() && before.order()[j] == k;
                            assert(self.order()[j] == k);
                        } else if self.order().contains(k) {
                            let j = choose|j: int| 0 <= j < self.order().len() && self.order()[j] == k;
                            assert(j < n);
                            assert(before.order()[j] == k);
                        }
                    }
                    assert forall|k: Seq<char>| #[trigger] self.map().contains_key(k) implies self.map()[k]
                        == before.map().insert(key_view, value)[k] by {
                        let p = position_of(self.order(), k).unwrap();
                        if k == key_view {
                            assert(p == n);
                        } else {
                            assert(p < n);
                            assert(before.order()[p] == k);
                            let q = position_of(before.order(), k).unwrap();
                            assert(q == p);
                        }
                    }
                    assert(self.map() =~= before.map().insert(key_view, value));
                }
                None
            },
        }
    }

    /// Takes the entry of `key` out, where there is one; the others keep
    /// their order.
    pub fn remove(&mut self, key: &str) -> (former: Option<V>)
        requires
            old(self).wf(),
        ensures
            final(self).wf(),
            final(self).map() == old(self).map().remove(key@),
            former == if old(self).map().contains_key(key@) {
                Some(old(self).map()[key@])
            } else {
                None::<V>
            },
            !old(self).map().contains_key(key@) ==> final(self).order() == old(self).order()
                && final(self).items() == old(self).items(),
    {
        proof {
            self.lemma_well_formed();
        }
        let found = self.find(key);
        let ghost before = *self;
        match found {
            Some(i) => {
                let _gone = self.keys.remove(i);
                let value = self.values.remove(i);
                proof {
                    assert(self.order() =~= before.order().remove(i as int));
                    assert(distinct(self.order())) by {
                        assert forall|a: int, b: int| 0 <= a < b < self.order().len() implies self.order()[a]
                            != self.order()[b] by {
                            let a0 = if a < i { a } else { a + 1 };
                            let b0 = if b < i { b } else { b + 1 };
                            assert(self.order()[a] == before.order()[a0]);
                            assert(self.order()[b] == before.order()[b0]);
                        }
                    }
                    assert forall|k: Seq<char>| #[trigger]
                        self.map().contains_key(k) <==> before.map().remove(key@).contains_key(
                            k,
                        ) by {
                        if self.order().contains(k) {
                            let j = choose|j: int| 0 <= j < self.order().len() && self.order()[j] == k;
                            let j0 = if j < i { j } else { j + 1 };
                            assert(before.order()[j0] == k);
                        }
                        if before.order().contains(k) && k != key@ {
                            let j0 = choose|j: int| 0 <= j < before.order().len() && before.order()[j] == k;
                            let j = if j0 < i { j0 } else { j0 - 1 };
                            assert(self.order()[j] == k);
                        }
                    }
                    assert forall|k: Seq<char>| #[trigger] self.map().contains_key(k) implies self.map()[k]
                        == before.map().remove(key@)[k] by {
                        let p = position_of(self.order(), k).unwrap();
                        let p0 = if p < i { p } else { p + 1 };
                        assert(before.order()[p0] == k);
                        let q = position_of(before.order(), k).unwrap();
                        assert(q == p0);
                    }
                    assert(self.map() =~= before.map().remove(key@));
                }
                Some(value)
            },
            None => {
                proof {
                    assert(self.map() =~= before.map().remove(key@));
                }
                None
            },
        }
    }
}

/// A sequence without repeated entries has as many members, taken as a set,
/// as it has entries.
pub proof fn lemma_distinct_keys_set(keys: Seq<Seq<char>>)
    requires
        distinct(keys),
    ensures
        keys.to_set().finite(),
        keys.to_set().len() == keys.len(),
    decreases keys.len(),
{
    if keys.len() == 0 {
        assert(keys.to_set() =~= Set::<Seq<char>>::empty());
    } else {
        let front = keys.drop_last();
        let last = keys.last();
        lemma_distinct_keys_set(front);
        assert(!front.to_set().contains(last)) by {
            if front.to_set().contains(last) {
                let j = choose|j: int| 0 <= j < front.len() && front[j] == last;
                assert(keys[j] == keys[keys.len() - 1]);
            }
        }
        assert(keys.to_set() =~= front.to_set().insert(last)) by {
            assert forall|k: Seq<char>| keys.to_set().contains(k) <==> front.to_set().insert(
                last,
            ).contains(k) by {
                if keys.contains(k) {
                    let j = choose|j: int| 0 <= j < keys.len() && keys[j] == k;
                    if j < front.len() {
                        assert(front[j] == k);
                    }
                }
                if front.contains(k) {
                    let j = choose|j: int| 0 <= j < front.len() && front[j] == k;
                    assert(keys[j] == k);
                }
                if k == last {
                    assert(keys[keys.len() - 1] == k);
                }
            }
        }
    }
}

} // verus!
