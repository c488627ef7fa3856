//! A table keyed by text: each key holds one value, and rows keep the order in
//! which their keys first came. Rows can be walked, and changed in place, which
//! `vstd`'s own map with text keys does not offer.
use crate::text::same_text;
use vstd::prelude::*;

verus! {

/// Rows of a key and a value, no key twice.
pub struct Table<V> {
    keys: Vec<String>,
    values: Vec<V>,
}

/// The place of `key` among `keys`, for a key that is there.
pub open spec fn place_of(keys: Seq<Seq<char>>, key: Seq<char>) -> int {
    choose|i: int| 0 <= i < keys.len() && keys[i] == key
}

impl<V: View> View for Table<V> {
    type V = Map<Seq<char>, V::V>;

    closed spec fn view(&self) -> Map<Seq<char>, V::V> {
        Map::new(
            |k: Seq<char>| self.keys().contains(k),
            |k: Seq<char>| self.values[place_of(self.keys(), k)]@,
        )
    }
}

impl<V: View> Table<V> {
    /// The keys, in row order.
    pub closed spec fn keys(&self) -> Seq<Seq<char>> {
        Seq::new(self.keys@.len(), |i: int| self.keys@[i]@)
    }

    /// No key stands twice, and each has its value.
    pub closed spec fn wf(&self) -> bool {
        &&& self.keys@.len() == self.values@.len()
        &&& self.keys().no_duplicates()
    }

    /// A table's keys are exactly its view's domain, each once.
    pub proof fn lemma_keys(&self)
        requires
            self.wf(),
        ensures
            self.keys().no_duplicates(),
            forall|k: Seq<char>| #[trigger] self@.contains_key(k) <==> self.keys().contains(k),
            self@.dom() == self.keys().to_set(),
            self@.dom().finite(),
            self@.dom().len() == self.keys().len(),
    {
        assert(self@.dom() =~= self.keys().to_set());
        self.keys().unique_seq_to_set();
    }

    proof fn lemma_row(&self, i: int)
        requires
            self.wf(),
            0 <= i < self.keys().len(),
        ensures
            self@.contains_key(self.keys()[i]),
            place_of(self.keys(), self.keys()[i]) == i,
            self@[self.keys()[i]] == self.values@[i]@,
    {
        let k = self.keys()[i];
        assert(self.keys().contains(k));
        let p = place_of(self.keys(), k);
        assert(0 <= p < self.keys().len() && self.keys()[p] == k);
    }

    /// An empty table.
    pub fn new() -> (r: Self)
        ensures
            r.wf(),
            r@ == Map::<Seq<char>, V::V>::empty(),
            r.keys() == Seq::<Seq<char>>::empty(),
    {
        let r = Table { keys: Vec::new(), values: Vec::new() };
        assert(r.keys() =~= Seq::empty());
        assert(r@ =~= Map::empty());
        r
    }

    /// How many rows there are.
    pub fn len(&self) -> (n: usize)
        requires
            self.wf(),
        ensures
            n == self.keys().len(),
            n == self@.len(),
    {
        proof {
            self.lemma_keys();
        }
        self.keys.len()
    }

    /// The key of row `i`.
    pub fn key_at(&self, i: usize) -> (k: &String)
        requires
            self.wf(),
            i < self.keys().len(),
        ensures
            k@ == self.keys()[i as int],
            self@.contains_key(k@),
    {
        proof {
            self.lemma_row(i as int);
        }
        &self.keys[i]
    }

    /// The value of row `i`.
    pub fn value_at(&self, i: usize) -> (v: &V)
        requires
            self.wf(),
            i < self.keys().len(),
        ensures
            v@ == self@[self.keys()[i as int]],
            self@.contains_key(self.keys()[i as int]),
    {
        proof {
            self.lemma_row(i as int);
        }
        &self.values[i]
    }

    /// The row that holds `key`, if any.
    fn find(&self, key: &str) -> (r: Option<usize>)
        requires
            self.wf(),
        ensures
            r is Some <==> self@.contains_key(key@),
            r matches Some(i) ==> i < self.keys().len() && self.keys()[i as int] == key@,
    {
        let mut i: usize = 0;
        while i < self.keys.len()
            invariant
                i <= self.keys.len(),
                forall|j: int| 0 <= j < i ==> self.keys()[j] != key@,
            decreases self.keys.len() - i,
        {
            if same_text(self.keys[i].as_str(), key) {
                assert(self.keys()[i as int] == key@);
                return Some(i);
            }
            i += 1;
        }
        None
    }

    /// Whether `key` has a row.
    pub fn contains_key(&self, key: &str) -> (r: bool)
        requires
            self.wf(),
        ensures
            r == self@.contains_key(key@),
    {
        self.find(key).is_some()
    }

    /// The value that `key` holds.
    pub fn get(&self, key: &str) -> (r: Option<&V>)
        requires
            self.wf(),
        ensures
            r is Some <==> self@.contains_key(key@),
            r matches Some(v) ==> v@ == self@[key@],
    {
        match self.find(key) {
            Some(i) => Some(self.value_at(i)),
            None => None,
        }
    }

    /// The value of row `i`, to be changed in place.
    pub fn value_mut_at(&mut self, i: usize) -> (v: &mut V)
        requires
            old(self).wf(),
            i < old(self).keys().len(),
        ensures
            v@ == old(self)@[old(self).keys()[i as int]],
            old(self)@.contains_key(old(self).keys()[i as int]),
            final(self).wf(),
            final(self).keys() == old(self).keys(),
            final(self)@ == old(self)@.insert(old(self).keys()[i as int], final(v)@),
    {
        proof {
            self.lemma_row(i as int);
        }
        &mut self.values[i]
    }

    /// Gives `key` the value `value`, in place of the one that it held.
    pub fn insert(&mut self, key: String, value: V)
        requires
            old(self).wf(),
        ensures
            final(self).wf(),
            final(self)@ == old(self)@.insert(key@, value@),
    {
        match self.find(key.as_str()) {
            Some(i) => {
                *self.value_mut_at(i) = value;
            },
            None => {
                let ghost before = *self;
                self.keys.push(key);
                self.values.push(value);
                proof {
                    assert(self.keys() =~= before.keys().push(key@));
                    assert forall|i: int, j: int|
                        0 <= i < self.keys().len() && 0 <= j < self.keys().len() && i
                            != j implies self.keys()[i] != self.keys()[j] by {
                        assert(!before.keys().contains(key@));
                        assert(i < before.keys().len() ==> before.keys().contains(
                            before.keys()[i],
                        ));
                        assert(j < before.keys().len() ==> before.keys().contains(
                            before.keys()[j],
                        ));
                    }
                    self.lemma_row(before.keys().len() as int);
                    assert forall|k: Seq<char>| #[trigger] before@.contains_key(k) implies self@[k]
                        == before@[k] && self@.contains_key(k) by {
                        let p = place_of(before.keys(), k);
                        before.lemma_row(p);
                        self.lemma_row(p);
                    }
                    assert forall|k: Seq<char>| #[trigger] self@.contains_key(k) implies k == key@
                        || before@.contains_key(k) by {
                        let p = place_of(self.keys(), k);
                        assert(0 <= p < self.keys().len() && self.keys()[p] == k);
                        if p < before.keys().len() {
                            before.lemma_row(p);
                        }
                    }
                    assert(self@ =~= before@.insert(key@, value@));
                }
            },
        }
    }

    /// Takes row `i` out; the rows behind it move up.
    pub fn remove_at(&mut self, i: usize)
        requires
            old(self).wf(),
            i < old(self).keys().len(),
        ensures
            final(self).wf(),
            final(self).keys() == old(self).keys().remove(i as int),
            final(self)@ == old(self)@.remove(old(self).keys()[i as int]),
    {
        let ghost before = *self;
        let ghost key = self.keys()[i as int];
        self.keys.remove(i);
        self.values.remove(i);
        proof {
            assert(self.keys() =~= before.keys().remove(i as int));
            assert forall|k: Seq<char>| #[trigger] before@.contains_key(k) && k != key implies self@[k]
                == before@[k] && self@.contains_key(k) by {
                let p = place_of(before.keys(), k);
                assert(0 <= p < before.keys().len() && before.keys()[p] == k);
                before.lemma_row(p);
                self.lemma_row(if p < i {
                    p
                } else {
                    p - 1
                });
            }
            assert forall|k: Seq<char>| #[trigger] self@.contains_key(k) implies before@.contains_key(
                k,
            ) && k != key by {
                let p = place_of(self.keys(), k);
                assert(0 <= p < self.keys().len() && self.keys()[p] == k);
                let q = if p < i {
                    p
                } else {
                    p + 1
                };
                assert(before.keys()[q] == k);
                before.lemma_row(q);
            }
            assert(self@ =~= before@.remove(key));
        }
    }

    /// Takes the row of `key` out, if there is one.
    pub fn remove(&mut self, key: &str)
        requires
            old(self).wf(),
        ensures
            final(self).wf(),
            final(self)@ == old(self)@.remove(key@),
    {
        match self.find(key) {
            Some(i) => {
                self.remove_at(i);
            },
            None => {
                assert(self@ =~= self@.remove(key@));
            },
        }
    }

    /// The value that `key` holds, to be changed in place.
    pub fn get_mut(&mut self, key: &str) -> (r: Option<&mut V>)
        requires
            old(self).wf(),
        ensures
            final(self).wf(),
            final(self).keys() == old(self).keys(),
            match r {
                Some(v) => {
                    &&& old(self)@.contains_key(key@)
                    &&& v@ == old(self)@[key@]
                    &&& final(self)@ == old(self)@.insert(key@, final(v)@)
                },
                None => !old(self)@.contains_key(key@) && final(self)@ == old(self)@,
            },
    {
        match self.find(key) {
            Some(i) => Some(self.value_mut_at(i)),
            None => None,
        }
    }
}

} // verus!
