//! A finite map keyed by strings, used for the homeserver's tables.

use vstd::prelude::*;

verus! {

/// A finite map from strings to values: two parallel vectors in which no key
/// occurs twice, together with the map that they represent.
pub struct StrMap<V> {
    keys: Vec<String>,
    vals: Vec<V>,
    model: Ghost<Map<Seq<char>, V>>,
}

impl<V> View for StrMap<V> {
    type V = Map<Seq<char>, V>;

    closed spec fn view(&self) -> Map<Seq<char>, V> {
        self.model@
    }
}

impl<V> StrMap<V> {
    /// The representation holds every key once, and pairs each key with its value.
    pub closed spec fn wf(&self) -> bool {
        &&& self.keys@.len() == self.vals@.len()
        &&& forall|i: int, j: int|
            #![trigger self.keys@[i], self.keys@[j]]
            0 <= i < j < self.keys@.len() ==> self.keys@[i]@ != self.keys@[j]@
        &&& forall|i: int|
            #![trigger self.keys@[i]]
            0 <= i < self.keys@.len() ==> self.model@.contains_key(self.keys@[i]@)
                && self.model@[self.keys@[i]@] == self.vals@[i]
        &&& forall|k: Seq<char>|
            #[trigger] self.model@.contains_key(k) ==> exists|i: int|
                0 <= i < self.keys@.len() && self.keys@[i]@ == k
    }

    pub fn new() -> (r: Self)
        ensures
            r.wf(),
            r@ == Map::<Seq<char>, V>::empty(),
    {
        StrMap { keys: Vec::new(), vals: Vec::new(), model: Ghost(Map::empty()) }
    }

    /// The position of `k` among the keys.
    fn find(&self, k: &String) -> (r: Option<usize>)
        requires
            self.wf(),
        ensures
            match r {
                Some(i) => i < self.keys@.len() && self.keys@[i as int]@ == k@,
                None => !self@.contains_key(k@),
            },
    {
        let mut i: usize = 0;
        while i < self.keys.len()
            invariant
                self.wf(),
                i <= self.keys@.len(),
                forall|j: int| 0 <= j < i ==> self.keys@[j]@ != k@,
            decreases self.keys@.len() - i,
        {
            if self.keys[i] == *k {
                return Some(i);
            }
            i = i + 1;
        }
        None
    }

    pub fn contains_key(&self, k: &String) -> (r: bool)
        requires
            self.wf(),
        ensures
            r == self@.contains_key(k@),
    {
        match self.find(k) {
            Some(i) => true,
            None => false,
        }
    }

    pub fn get(&self, k: &String) -> (r: Option<&V>)
        requires
            self.wf(),
        ensures
            match r {
                Some(v) => self@.contains_key(k@) && *v == self@[k@],
                None => !self@.contains_key(k@),
            },
    {
        match self.find(k) {
            Some(i) => Some(&self.vals[i]),
            None => None,
        }
    }

    /// Binds `k` to `v`, replacing any value that `k` had.
    pub fn insert(&mut self, k: String, v: V)
        requires
            old(self).wf(),
        ensures
            final(self).wf(),
            final(self)@ == old(self)@.insert(k@, v),
    {
        let ghost kv = k@;
        let ghost vv = v;
        let ghost old_model = self.model@;
        match self.find(&k) {
            Some(i) => {
                self.vals.set(i, v);
                self.model = Ghost(old_model.insert(kv, vv));
                assert forall|j: int|
                    #![trigger self.keys@[j]]
                    0 <= j < self.keys@.len() implies self.model@.contains_key(self.keys@[j]@)
                    && self.model@[self.keys@[j]@] == self.vals@[j] by {
                    if j != i {
                        assert(self.keys@[j]@ != self.keys@[i as int]@);
                    }
                }
                assert forall|key: Seq<char>| #[trigger] self.model@.contains_key(key) implies exists|
                    j: int,
                |
                    0 <= j < self.keys@.len() && self.keys@[j]@ == key by {
                    if key == kv {
                        assert(self.keys@[i as int]@ == key);
                    } else {
                        assert(old_model.contains_key(key));
                    }
                }
            },
            None => {
                let ghost old_keys = self.keys@;
                self.keys.push(k);
                self.vals.push(v);
                self.model = Ghost(old_model.insert(kv, vv));
                let ghost n = self.keys@.len() - 1;
                assert(self.keys@[n]@ == kv);
                assert forall|a: int, b: int|
                    #![trigger self.keys@[a], self.keys@[b]]
                    0 <= a < b < self.keys@.len() implies self.keys@[a]@ != self.keys@[b]@ by {
                    if b == n {
                        assert(old_model.contains_key(self.keys@[a]@));
                    }
                }
                assert forall|j: int|
                    #![trigger self.keys@[j]]
                    0 <= j < self.keys@.len() implies self.model@.contains_key(self.keys@[j]@)
                    && self.model@[self.keys@[j]@] == self.vals@[j] by {
                    if j < n {
                        assert(old_model.contains_key(self.keys@[j]@));
                    }
                }
                assert forall|key: Seq<char>| #[trigger] self.model@.contains_key(key) implies exists|
                    j: int,
                |
                    0 <= j < self.keys@.len() && self.keys@[j]@ == key by {
                    if key != kv {
                        assert(old_model.contains_key(key));
                        let j = choose|j: int| 0 <= j < old_keys.len() && old_keys[j]@ == key;
                        assert(self.keys@[j] == old_keys[j]);
                    }
                }
            },
        }
    }

    /// Unbinds `k` and hands back the value it had, if any.
    pub fn remove(&mut self, k: &String) -> (r: Option<V>)
        requires
            old(self).wf(),
        ensures
            final(self).wf(),
            final(self)@ == old(self)@.remove(k@),
            match r {
                Some(v) => old(self)@.contains_key(k@) && v == old(self)@[k@],
                None => !old(self)@.contains_key(k@),
            },
    {
        let ghost old_model = self.model@;
        let ghost old_keys = self.keys@;
        match self.find(k) {
            Some(i) => {
                self.keys.remove(i);
                let v = self.vals.remove(i);
                self.model = Ghost(old_model.remove(k@));
                assert(old_keys[i as int]@ == k@);
                assert forall|a: int, b: int|
                    #![trigger self.keys@[a], self.keys@[b]]
                    0 <= a < b < self.keys@.len() implies self.keys@[a]@ != self.keys@[b]@ by {
                    let a0 = if a < i { a } else { a + 1 };
                    let b0 = if b < i { b } else { b + 1 };
                    assert(self.keys@[a] == old_keys[a0]);
                    assert(self.keys@[b] == old_keys[b0]);
                    assert(old_keys[a0]@ != old_keys[b0]@);
                }
                assert forall|j: int|
                    #![trigger self.keys@[j]]
                    0 <= j < self.keys@.len() implies self.model@.contains_key(self.keys@[j]@)
                    && self.model@[self.keys@[j]@] == self.vals@[j] by {
                    let j0 = if j < i { j } else { j + 1 };
                    assert(self.keys@[j] == old_keys[j0]);
                    assert(old_keys[j0]@ != old_keys[i as int]@);
                    assert(old_model.contains_key(old_keys[j0]@));
                }
                assert forall|key: Seq<char>| #[trigger] self.model@.contains_key(key) implies exists|
                    j: int,
                |
                    0 <= j < self.keys@.len() && self.keys@[j]@ == key by {
                    assert(old_model.contains_key(key));
                    let j0 = choose|j0: int| 0 <= j0 < old_keys.len() && old_keys[j0]@ == key;
                    assert(j0 != i);
                    if j0 < i {
                        assert(self.keys@[j0] == old_keys[j0]);
                    } else {
                        assert(self.keys@[j0 - 1] == old_keys[j0]);
                    }
                }
                Some(v)
            },
            None => {
                assert(self.model@ =~= old_model.remove(k@));
                None
            },
        }
    }
}

} // verus!
