//! A map with string keys that remembers the order in which its keys came in.

use vstd::prelude::*;

use crate::text::str_eq;

verus! {

/// A map from strings to `V`.
#[derive(Debug)]
pub struct StrMap<V> {
    keys: Vec<String>,
    vals: Vec<V>,
}

impl<V> View for StrMap<V> {
    type V = Map<Seq<char>, V>;

    closed spec fn view(&self) -> Map<Seq<char>, V> {
        Map::new(
            |k: Seq<char>| self.key_seq().contains(k),
            |k: Seq<char>| self.vals@[self.key_seq().index_of(k)],
        )
    }
}

impl<V> StrMap<V> {
    /// The keys, in the order in which they came in.
    pub closed spec fn key_seq(&self) -> Seq<Seq<char>> {
        crate::text::views(self.keys@)
    }

    /// The values, in the order of their keys.
    pub closed spec fn val_seq(&self) -> Seq<V> {
        self.vals@
    }

    /// Each key has one value, and no key occurs twice.
    pub closed spec fn wf(&self) -> bool {
        &&& self.keys@.len() == self.vals@.len()
        &&& self.key_seq().no_duplicates()
    }

    /// How the lists of keys and values relate to the map.
    pub proof fn lemma_entries(&self)
        requires
            self.wf(),
        ensures
            self.key_seq().len() == self.val_seq().len(),
            self.key_seq().no_duplicates(),
            forall|k: Seq<char>| self@.dom().contains(k) <==> self.key_seq().contains(k),
            forall|i: int|
                0 <= i < self.key_seq().len() ==> self@.dom().contains(#[trigger] self.key_seq()[i])
                    && self@[self.key_seq()[i]] == self.val_seq()[i],
    {
        assert forall|i: int| 0 <= i < self.key_seq().len() implies self@.dom().contains(
            #[trigger] self.key_seq()[i],
        ) && self@[self.key_seq()[i]] == self.val_seq()[i] by {
            let k = self.key_seq()[i];
            assert(self.key_seq().contains(k));
            let j = self.key_seq().index_of(k);
            assert(self.key_seq()[j] == k);
            assert(i == j);
        }
    }

    /// The number of keys is the size of the map.
    pub proof fn lemma_len(&self)
        requires
            self.wf(),
        ensures
            self@.dom().finite(),
            self@.dom().len() == self.key_seq().len(),
    {
        self.lemma_entries();
        self.key_seq().unique_seq_to_set();
        assert(self@.dom() =~= self.key_seq().to_set());
    }

    /// An empty map.
    pub fn new() -> (m: Self)
        ensures
            m.wf(),
            m@ == Map::<Seq<char>, V>::empty(),
            m.key_seq() == Seq::<Seq<char>>::empty(),
            m.val_seq() == Seq::<V>::empty(),
    {
        let m = StrMap { keys: Vec::new(), vals: Vec::new() };
        assert(m.key_seq() =~= Seq::<Seq<char>>::empty());
        assert(m@ =~= Map::<Seq<char>, V>::empty());
        m
    }

    /// The number of entries.
    pub fn len(&self) -> (n: usize)
        requires
            self.wf(),
        ensures
            n == self@.dom().len(),
            n == self.key_seq().len(),
    {
        proof {
            self.lemma_len();
        }
        self.keys.len()
    }

    /// Whether there is no entry.
    pub fn is_empty(&self) -> (r: bool)
        requires
            self.wf(),
        ensures
            r == (self@ == Map::<Seq<char>, V>::empty()),
            r == (self.key_seq().len() == 0),
    {
        proof {
            self.lemma_entries();
            if self.key_seq().len() > 0 {
                assert(self@.dom().contains(self.key_seq()[0]));
            } else {
                assert(self@ =~= Map::<Seq<char>, V>::empty());
            }
        }
        self.keys.len() == 0
    }

    /// The place of `key` among the keys.
    pub fn position(&self, key: &str) -> (r: Option<usize>)
        requires
            self.wf(),
        ensures
            match r {
                Some(i) => i < self.key_seq().len() && self.key_seq()[i as int] == key@
                    && self@.dom().contains(key@) && self@[key@] == self.val_seq()[i as int],
                None => !self@.dom().contains(key@) && !self.key_seq().contains(key@),
            },
    {
        proof {
            self.lemma_entries();
        }
        let mut i: usize = 0;
        while i < self.keys.len()
            invariant
                i <= self.keys@.len(),
                forall|j: int| 0 <= j < i ==> #[trigger] self.key_seq()[j] != key@,
                self.wf(),
                forall|j: int|
                    0 <= j < self.key_seq().len() ==> self@.dom().contains(
                        #[trigger] self.key_seq()[j],
                    ) && self@[self.key_seq()[j]] == self.val_seq()[j],
            decreases self.keys@.len() - i,
        {
            assert(self.key_seq()[i as int] == self.keys@[i as int]@);
            if str_eq(self.keys[i].as_str(), key) {
                return Some(i);
            }
            i += 1;
        }
        None
    }

    /// Whether `key` is in the map.
    pub fn contains_key(&self, key: &str) -> (r: bool)
        requires
            self.wf(),
        ensures
            r == self@.dom().contains(key@),
    {
        self.position(key).is_some()
    }

    /// The value of `key`.
    pub fn get(&self, key: &str) -> (r: Option<&V>)
        requires
            self.wf(),
        ensures
            match r {
                Some(v) => self@.dom().contains(key@) && *v == self@[key@],
                None => !self@.dom().contains(key@),
            },
    {
        match self.position(key) {
            Some(i) => Some(&self.vals[i]),
            None => None,
        }
    }

    /// The key at place `i`.
    pub fn key_at(&self, i: usize) -> (k: &String)
        requires
            self.wf(),
            i < self.key_seq().len(),
        ensures
            k@ == self.key_seq()[i as int],
    {
        &self.keys[i]
    }

    /// The value at place `i`.
    pub fn val_at(&self, i: usize) -> (v: &V)
        requires
            self.wf(),
            i < self.key_seq().len(),
        ensures
            *v == self.val_seq()[i as int],
    {
        &self.vals[i]
    }

    /// The value in place `i`, to be changed.
    pub fn val_mut(&mut self, i: usize) -> (v: &mut V)
        requires
            old(self).wf(),
            i < old(self).key_seq().len(),
        ensures
            *v == old(self).val_seq()[i as int],
            final(self).wf(),
            final(self).key_seq() == old(self).key_seq(),
            final(self).val_seq() == old(self).val_seq().update(i as int, *final(v)),
            final(self)@ == old(self)@.insert(old(self).key_seq()[i as int], *final(v)),
    {
        proof {
            self.lemma_replaced(i as int);
        }
        &mut self.vals[i]
    }

    /// How a changed value shows in the map.
    proof fn lemma_replaced(&self, i: int)
        requires
            self.wf(),
            0 <= i < self.key_seq().len(),
        ensures
            forall|m: StrMap<V>, v: V|
                m.keys@ == self.keys@ && m.vals@ == #[trigger] self.vals@.update(i, v)
                    ==> #[trigger] m.wf() && m@ == self@.insert(self.key_seq()[i], v),
    {
        self.lemma_entries();
        assert forall|m: StrMap<V>, v: V|
            m.keys@ == self.keys@ && m.vals@ == #[trigger] self.vals@.update(i, v) implies #[trigger]
        m.wf() && m@ == self@.insert(self.key_seq()[i], v) by {
            assert(m.key_seq() == self.key_seq());
            m.lemma_entries();
            assert(m@ =~= self@.insert(self.key_seq()[i], v)) by {
                assert forall|k: Seq<char>| m@.dom().contains(k) implies #[trigger] m@[k]
                    == self@.insert(self.key_seq()[i], v)[k] by {
                    let j = self.key_seq().index_of(k);
                    assert(self.key_seq()[j] == k);
                    assert(m@[m.key_seq()[j]] == m.val_seq()[j]);
                    assert(self@[self.key_seq()[j]] == self.val_seq()[j]);
                }
                assert(self.key_seq().contains(self.key_seq()[i]));
            }
        }
    }

    /// Puts `value` under `key`. A key that is already there keeps its place; a new one comes
    /// last.
    pub fn insert(&mut self, key: String, value: V)
        requires
            old(self).wf(),
        ensures
            final(self).wf(),
            final(self)@ == old(self)@.insert(key@, value),
            old(self)@.dom().contains(key@) ==> final(self).key_seq() == old(self).key_seq(),
            old(self)@.dom().contains(key@) ==> final(self).val_seq() == old(self).val_seq().update(
                old(self).key_seq().index_of(key@),
                value,
            ),
            !old(self)@.dom().contains(key@) ==> final(self).key_seq() == old(self).key_seq().push(
                key@,
            ),
            !old(self)@.dom().contains(key@) ==> final(self).val_seq() == old(self).val_seq().push(
                value,
            ),
    {
        let ghost before = *self;
        proof {
            before.lemma_entries();
        }
        match self.position(key.as_str()) {
            Some(i) => {
                self.vals.set(i, value);
                proof {
                    assert(self.key_seq() =~= before.key_seq());
                    assert(before.key_seq().contains(key@));
                    assert(before.key_seq().index_of(key@) == i);
                    self.lemma_entries();
                    assert forall|k: Seq<char>| before@.dom().contains(k) implies self@[k]
                        == before@.insert(key@, value)[k] by {
                        let j = before.key_seq().index_of(k);
                        assert(before.key_seq()[j] == k);
                    }
                    assert(self@ =~= before@.insert(key@, value));
                }
            },
            None => {
                let ghost k0 = key@;
                self.keys.push(key);
                self.vals.push(value);
                proof {
                    assert(self.key_seq() =~= before.key_seq().push(k0));
                    assert(self.wf());
                    self.lemma_entries();
                    assert forall|k: Seq<char>| self.key_seq().contains(k) <==> (k == k0
                        || before.key_seq().contains(k)) by {
                        if k == k0 {
                            assert(self.key_seq()[before.key_seq().len() as int] == k0);
                        }
                        if before.key_seq().contains(k) {
                            let j = before.key_seq().index_of(k);
                            assert(self.key_seq()[j] == k);
                        }
                    }
                    assert forall|k: Seq<char>| self@.dom().contains(k) implies self@[k]
                        == before@.insert(k0, value)[k] by {
                        let j = self.key_seq().index_of(k);
                        assert(self.key_seq()[j] == k);
                        if j < before.key_seq().len() {
                            assert(before.key_seq()[j] == k);
                        }
                    }
                    assert(self@ =~= before@.insert(k0, value));
                }
            },
        }
    }

    /// Takes `key` out of the map; the other keys keep their order.
    pub fn remove(&mut self, key: &str) -> (r: Option<V>)
        requires
            old(self).wf(),
        ensures
            final(self).wf(),
            final(self)@ == old(self)@.remove(key@),
            match r {
                Some(v) => old(self)@.dom().contains(key@) && v == old(self)@[key@],
                None => !old(self)@.dom().contains(key@),
            },
            final(self).key_seq() == without(old(self).key_seq(), key@),
    {
        let ghost before = *self;
        proof {
            before.lemma_entries();
        }
        match self.position(key) {
            Some(i) => {
                let _k = self.keys.remove(i);
                let v = self.vals.remove(i);
                proof {
                    let a = before.key_seq();
                    assert(self.key_seq() =~= a.remove(i as int));
                    lemma_without_one(a, i as int);
                    assert forall|x: int, y: int|
                        0 <= x < self.key_seq().len() && 0 <= y < self.key_seq().len() && x
                            != y implies self.key_seq()[x] != self.key_seq()[y] by {
                        let x1 = if x < i { x } else { x + 1 };
                        let y1 = if y < i { y } else { y + 1 };
                        assert(a[x1] != a[y1]);
                    }
                    assert(self.wf());
                    self.lemma_entries();
                    assert forall|k: Seq<char>| self.key_seq().contains(k) <==> (k != key@
                        && a.contains(k)) by {
                        if self.key_seq().contains(k) {
                            let j = self.key_seq().index_of(k);
                            let j1 = if j < i { j } else { j + 1 };
                            assert(a[j1] == k);
                        }
                        if a.contains(k) && k != key@ {
                            let j1 = a.index_of(k);
                            let j = if j1 < i { j1 } else { j1 - 1 };
                            assert(self.key_seq()[j] == k);
                        }
                    }
                    assert forall|k: Seq<char>| self@.dom().contains(k) implies self@[k]
                        == before@[k] by {
                        let j = self.key_seq().index_of(k);
                        assert(self.key_seq()[j] == k);
                        let j1 = if j < i { j } else { j + 1 };
                        assert(a[j1] == k);
                    }
                    assert(self@ =~= before@.remove(key@));
                }
                Some(v)
            },
            None => {
                proof {
                    lemma_without_none(self.key_seq(), key@);
                    assert(self@ =~= before@.remove(key@));
                }
                None
            },
        }
    }

    /// Takes out all entries.
    pub fn clear(&mut self)
        ensures
            final(self).wf(),
            final(self)@ == Map::<Seq<char>, V>::empty(),
            final(self).key_seq() == Seq::<Seq<char>>::empty(),
    {
        self.keys.clear();
        self.vals.clear();
        assert(self.key_seq() =~= Seq::<Seq<char>>::empty());
        assert(self@ =~= Map::<Seq<char>, V>::empty());
    }
}

/// `a` without the occurrences of `x`.
pub open spec fn without(a: Seq<Seq<char>>, x: Seq<char>) -> Seq<Seq<char>>
    decreases a.len(),
{
    if a.len() == 0 {
        a
    } else if a.last() == x {
        without(a.drop_last(), x)
    } else {
        without(a.drop_last(), x).push(a.last())
    }
}

/// Taking out the only occurrence of a key removes that place.
pub proof fn lemma_without_one(a: Seq<Seq<char>>, i: int)
    requires
        0 <= i < a.len(),
        a.no_duplicates(),
    ensures
        without(a, a[i]) == a.remove(i),
    decreases a.len(),
{
    let x = a[i];
    let b = a.drop_last();
    if i == a.len() - 1 {
        assert(!b.contains(x));
        lemma_without_none(b, x);
        assert(a.remove(i) =~= b);
    } else {
        assert(b[i] == x);
        lemma_without_one(b, i);
        assert(a.remove(i) =~= b.remove(i).push(a.last()));
    }
}

/// Taking out a key that is not there changes nothing.
pub proof fn lemma_without_none(a: Seq<Seq<char>>, x: Seq<char>)
    requires
        !a.contains(x),
    ensures
        without(a, x) == a,
    decreases a.len(),
{
    if a.len() > 0 {
        let b = a.drop_last();
        assert(!b.contains(x)) by {
            if b.contains(x) {
                let j = b.index_of(x);
                assert(a[j] == x);
            }
        }
        lemma_without_none(b, x);
        assert(a[a.len() - 1] != x);
        assert(a =~= b.push(a.last()));
    } else {
        assert(without(a, x) =~= a);
    }
}

impl<V: Copy> Clone for StrMap<V> {
    fn clone(&self) -> (r: Self)
        ensures
            self.wf() ==> r.wf(),
            r@ == self@,
            r.key_seq() == self.key_seq(),
            r.val_seq() == self.val_seq(),
    {
        let mut keys: Vec<String> = Vec::new();
        let mut i: usize = 0;
        while i < self.keys.len()
            invariant
                i <= self.keys@.len(),
                keys@.len() == i,
                forall|j: int| 0 <= j < i ==> (#[trigger] keys@[j])@ == self.keys@[j]@,
            decreases self.keys@.len() - i,
        {
            keys.push(self.keys[i].clone());
            i += 1;
        }
        let mut vals: Vec<V> = Vec::new();
        let mut j: usize = 0;
        while j < self.vals.len()
            invariant
                j <= self.vals@.len(),
                vals@ == self.vals@.take(j as int),
            decreases self.vals@.len() - j,
        {
            vals.push(self.vals[j]);
            j += 1;
            assert(self.vals@.take(j as int) == self.vals@.take(j - 1).push(self.vals@[j - 1]));
        }
        assert(self.vals@.take(j as int) == self.vals@);
        let r = StrMap { keys, vals };
        assert(r.key_seq() =~= self.key_seq());
        assert(r@ =~= self@);
        r
    }
}

/// Taking a name out of a list takes every one of it out and leaves the others, in their order.
pub proof fn law_without_leaves_the_others(a: Seq<Seq<char>>, x: Seq<char>, y: Seq<char>)
    ensures
        without(Seq::empty(), x) == Seq::<Seq<char>>::empty(),
        without(a.push(x), x) == without(a, x),
        y != x ==> without(a.push(y), x) == without(a, x).push(y),
        !without(a, x).contains(x),
        y != x ==> (without(a, x).contains(y) <==> a.contains(y)),
    decreases a.len(),
{
    assert(a.push(x).drop_last() =~= a);
    assert(a.push(y).drop_last() =~= a);
    if a.len() > 0 {
        let b = a.drop_last();
        law_without_leaves_the_others(b, x, y);
        let w = without(b, x);
        if a.contains(y) && a.last() != y {
            let i = a.index_of(y);
            assert(b[i] == y);
        }
        if b.contains(y) {
            let i = b.index_of(y);
            assert(a[i] == y);
        }
        if a.last() == y {
            assert(a[a.len() - 1] == y);
        }
        if a.last() != x {
            let all = w.push(a.last());
            assert(all[w.len() as int] == a.last());
            if w.contains(y) {
                let i = w.index_of(y);
                assert(all[i] == y);
            }
            if all.contains(y) && y != a.last() {
                let i = all.index_of(y);
                assert(w[i] == y);
            }
            if all.contains(x) {
                let i = all.index_of(x);
                if i < w.len() {
                    assert(w[i] == x);
                }
            }
        }
    }
}

/// What was put under a key is found under it, and what was taken out is found no more; other keys
/// keep their values.
pub proof fn law_put_is_found<V>(other: Seq<char>)
    ensures
        forall|m: &mut StrMap<V>, n: &StrMap<V>, key: String, value: V, k: &str, got: Option<&V>|
            #![trigger call_ensures(StrMap::<V>::insert, (m, key, value), ()), call_ensures(
                StrMap::<V>::get,
                (n, k),
                got,
            )]
            call_ensures(StrMap::<V>::insert, (m, key, value), ()) && *final(m) == *n
                && call_ensures(StrMap::<V>::get, (n, k), got) && k@ == key@ ==> got is Some
                && *got->0 == value,
        forall|m: &mut StrMap<V>, n: &StrMap<V>, key: &str, r: Option<V>, got: Option<&V>|
            #![trigger call_ensures(StrMap::<V>::remove, (m, key), r), call_ensures(
                StrMap::<V>::get,
                (n, key),
                got,
            )]
            call_ensures(StrMap::<V>::remove, (m, key), r) && *final(m) == *n && call_ensures(
                StrMap::<V>::get,
                (n, key),
                got,
            ) ==> got is None,
        forall|m: &mut StrMap<V>, key: String, value: V|
            #![trigger call_ensures(StrMap::<V>::insert, (m, key, value), ())]
            call_ensures(StrMap::<V>::insert, (m, key, value), ()) && other != key@
                && m@.dom().contains(other) ==> final(m)@.dom().contains(other) && final(m)@[other]
                == m@[other],
{
}

} // verus!
