use vstd::prelude::*;

verus! {

/// A map from string keys to values, held as two parallel vectors with
/// distinct keys. Its view is the map that it represents.
pub struct KeyedList<V> {
    keys: Vec<String>,
    vals: Vec<V>,
    model: Ghost<Map<Seq<char>, V>>,
}

/// `m` with every entry whose value is `v` left out.
pub open spec fn without_value(m: Map<Seq<char>, u64>, v: u64) -> Map<Seq<char>, u64> {
    m.restrict(m.dom().filter(|k: Seq<char>| m[k] != v))
}

impl<V> View for KeyedList<V> {
    type V = Map<Seq<char>, V>;

    closed spec fn view(&self) -> Map<Seq<char>, V> {
        self.model@
    }
}

impl<V> KeyedList<V> {
    /// The representation invariant: as many keys as values, no key twice, and
    /// the view holds exactly the pairs at equal positions.
    pub closed spec fn wf(&self) -> bool {
        &&& self.keys.len() == self.vals.len()
        &&& forall|i: int, j: int|
            0 <= i < j < self.keys.len() ==> #[trigger] self.keys@[i]@ != #[trigger] self.keys@[j]@
        &&& forall|i: int|
            0 <= i < self.keys.len() ==> {
                &&& self.model@.contains_key(#[trigger] self.keys@[i]@)
                &&& self.model@[self.keys@[i]@] == self.vals@[i]
            }
        &&& forall|k: Seq<char>|
            #[trigger] self.model@.contains_key(k) ==> exists|i: int|
                0 <= i < self.keys.len() && #[trigger] self.keys@[i]@ == k
    }

    /// An empty map.
    pub fn new() -> (r: Self)
        ensures
            r.wf(),
            r@ == Map::<Seq<char>, V>::empty(),
    {
        KeyedList { keys: Vec::new(), vals: Vec::new(), model: Ghost(Map::empty()) }
    }

    /// The number of entries.
    pub fn len(&self) -> (r: usize)
        requires
            self.wf(),
        ensures
            r == self@.dom().len(),
    {
        proof {
            let ks = self.keys@.map_values(|s: String| s@);
            assert(ks.no_duplicates()) by {
                assert forall|i: int, j: int| 0 <= i < ks.len() && 0 <= j < ks.len() && i != j
                    implies ks[i] != ks[j] by {
                    if i < j {
                        assert(self.keys@[i]@ != self.keys@[j]@);
                    } else {
                        assert(self.keys@[j]@ != self.keys@[i]@);
                    }
                }
            }
            ks.unique_seq_to_set();
            assert(ks.to_set() =~= self.model@.dom()) by {
                assert forall|k: Seq<char>| ks.to_set().contains(k) implies self.model@.dom().contains(k) by {
                    let i = choose|i: int| 0 <= i < ks.len() && ks[i] == k;
                    assert(self.keys@[i]@ == k);
                }
                assert forall|k: Seq<char>| self.model@.dom().contains(k) implies ks.to_set().contains(k) by {
                    let i = choose|i: int| 0 <= i < self.keys.len() && #[trigger] self.keys@[i]@ == k;
                    assert(ks[i] == k);
                }
            }
        }
        self.keys.len()
    }

    /// The position of `k`, if it is a key.
    fn find(&self, k: &String) -> (r: Option<usize>)
        requires
            self.wf(),
        ensures
            match r {
                Some(i) => i < self.keys.len() && self.keys@[i as int]@ == k@,
                None => !self@.contains_key(k@),
            },
    {
        let mut i: usize = 0;
        while i < self.keys.len()
            invariant
                self.wf(),
                i <= self.keys.len(),
                forall|j: int| 0 <= j < i ==> self.keys@[j]@ != k@,
            decreases self.keys.len() - i,
        {
            if self.keys[i] == *k {
                return Some(i);
            }
            i += 1;
        }
        None
    }

    /// Whether `k` is a key.
    pub fn contains_key(&self, k: &String) -> (r: bool)
        requires
            self.wf(),
        ensures
            r == self@.contains_key(k@),
    {
        match self.find(k) {
            Some(_) => true,
            None => false,
        }
    }

    /// The value under `k`, if any.
    pub fn get(&self, k: &String) -> (r: Option<&V>)
        requires
            self.wf(),
        ensures
            match r {
                Some(v) => self@.contains_key(k@) && *v == self@[k@],
                None => !self@.contains_key(k@),
            },
    {
        match self.find(k) {
            Some(i) => Some(&self.vals[i]),
            None => None,
        }
    }

    /// Puts `v` under `k`, replacing any value that was there.
    pub fn insert(&mut self, k: String, v: V)
        requires
            old(self).wf(),
        ensures
            final(self).wf(),
            final(self)@ == old(self)@.insert(k@, v),
    {
        let ghost key = k@;
        let ghost m = self.model@.insert(key, v);
        match self.find(&k) {
            Some(i) => {
                self.vals.set(i, v);
                self.model = Ghost(m);
                assert forall|j: int| 0 <= j < self.keys.len() implies {
                    &&& self.model@.contains_key(#[trigger] self.keys@[j]@)
                    &&& self.model@[self.keys@[j]@] == self.vals@[j]
                } by {
                    if j != i {
                        assert(self.keys@[j]@ != self.keys@[i as int]@) by {
                            if j < i {
                            } else {
                            }
                        }
                    }
                }
                assert forall|k2: Seq<char>| #[trigger] self.model@.contains_key(k2) implies exists|j: int|
                    0 <= j < self.keys.len() && #[trigger] self.keys@[j]@ == k2 by {
                    if k2 == key {
                        assert(self.keys@[i as int]@ == k2);
                    }
                }
            },
            None => {
                let ghost n = self.keys.len();
                self.keys.push(k);
                self.vals.push(v);
                self.model = Ghost(m);
                assert(self.keys@[n as int]@ == key);
                assert forall|k2: Seq<char>| #[trigger] self.model@.contains_key(k2) implies exists|j: int|
                    0 <= j < self.keys.len() && #[trigger] self.keys@[j]@ == k2 by {
                    if k2 == key {
                        assert(self.keys@[n as int]@ == k2);
                    } else {
                        assert(old(self).model@.contains_key(k2));
                        let j = choose|j: int| 0 <= j < old(self).keys.len() && #[trigger] old(self).keys@[j]@ == k2;
                        assert(self.keys@[j]@ == k2);
                    }
                }
            },
        }
    }

    /// Takes the value under `k` out of the map, if there is one.
    pub fn remove(&mut self, k: &String) -> (r: Option<V>)
        requires
            old(self).wf(),
        ensures
            final(self).wf(),
            final(self)@ == old(self)@.remove(k@),
            match r {
                Some(v) => old(self)@.contains_key(k@) && v == old(self)@[k@],
                None => !old(self)@.contains_key(k@),
            },
    {
        match self.find(k) {
            Some(i) => {
                let ghost m = self.model@.remove(k@);
                let ghost ok = self.keys@;
                let _ = self.keys.remove(i);
                let v = self.vals.remove(i);
                self.model = Ghost(m);
                assert forall|j: int| 0 <= j < self.keys.len() implies {
                    &&& self.model@.contains_key(#[trigger] self.keys@[j]@)
                    &&& self.model@[self.keys@[j]@] == self.vals@[j]
                } by {
                    if j < i {
                        assert(ok[j]@ != ok[i as int]@);
                    } else {
                        assert(ok[j + 1]@ != ok[i as int]@);
                    }
                }
                assert forall|k2: Seq<char>| #[trigger] self.model@.contains_key(k2) implies exists|j: int|
                    0 <= j < self.keys.len() && #[trigger] self.keys@[j]@ == k2 by {
                    let j = choose|j: int| 0 <= j < ok.len() && #[trigger] ok[j]@ == k2;
                    assert(j != i);
                    if j < i {
                        assert(self.keys@[j]@ == k2);
                    } else {
                        assert(self.keys@[j - 1]@ == k2);
                    }
                }
                assert forall|a: int, b: int|
                    0 <= a < b < self.keys.len() implies #[trigger] self.keys@[a]@ != #[trigger] self.keys@[b]@ by {
                    let a2 = if a < i { a } else { a + 1 };
                    let b2 = if b < i { b } else { b + 1 };
                    assert(ok[a2]@ != ok[b2]@);
                }
                Some(v)
            },
            None => {
                assert(self.model@.remove(k@) =~= self.model@);
                None
            },
        }
    }
}


impl KeyedList<u64> {
    /// Drops every entry whose value is `v`.
    pub fn remove_value(&mut self, v: u64)
        requires
            old(self).wf(),
        ensures
            final(self).wf(),
            final(self)@ == without_value(old(self)@, v),
    {
        let ghost target = without_value(self@, v);
        let mut keys: Vec<String> = Vec::new();
        let mut vals: Vec<u64> = Vec::new();
        // `src[a]` is the position in `self` that `keys[a]` came from; `dst[j]`
        // is the position in `keys` that a kept entry `j` of `self` went to.
        let ghost mut src: Seq<int> = Seq::empty();
        let ghost mut dst: Seq<int> = Seq::empty();
        let mut i: usize = 0;
        while i < self.keys.len()
            invariant
                self.wf(),
                target == without_value(self@, v),
                i <= self.keys.len(),
                keys.len() == vals.len(),
                src.len() == keys.len(),
                dst.len() == i,
                forall|a: int, b: int|
                    0 <= a < b < keys.len() ==> #[trigger] keys@[a]@ != #[trigger] keys@[b]@,
                forall|a: int|
                    0 <= a < keys.len() ==> {
                        &&& target.contains_key(#[trigger] keys@[a]@)
                        &&& target[keys@[a]@] == vals@[a]
                        &&& 0 <= src[a] < i
                        &&& self.keys@[src[a]]@ == keys@[a]@
                    },
                forall|j: int|
                    0 <= j < i && #[trigger] self.vals@[j] != v ==> {
                        &&& 0 <= dst[j] < keys.len()
                        &&& keys@[dst[j]]@ == self.keys@[j]@
                    },
            decreases self.keys.len() - i,
        {
            if self.vals[i] != v {
                let k = self.keys[i].clone();
                let ghost n = keys.len();
                assert forall|a: int| 0 <= a < n implies keys@[a]@ != k@ by {
                    assert(target.contains_key(keys@[a]@));
                    let j = src[a];
                    assert(0 <= j < i && self.keys@[j]@ == keys@[a]@);
                    assert(self.keys@[j]@ != self.keys@[i as int]@);
                }
                keys.push(k);
                vals.push(self.vals[i]);
                proof {
                    src = src.push(i as int);
                    dst = dst.push(n as int);
                }
            } else {
                proof {
                    dst = dst.push(0);
                }
            }
            i += 1;
        }
        self.keys = keys;
        self.vals = vals;
        self.model = Ghost(target);
        assert forall|k: Seq<char>| #[trigger] self.model@.contains_key(k) implies exists|a: int|
            0 <= a < self.keys.len() && #[trigger] self.keys@[a]@ == k by {
            let m = old(self).model@;
            assert(m.contains_key(k) && m[k] != v);
            let j = choose|j: int| 0 <= j < old(self).keys.len() && #[trigger] old(self).keys@[j]@ == k;
            assert(old(self).vals@[j] != v);
            assert(self.keys@[dst[j]]@ == k);
        }
    }
}

} // verus!
