use vstd::prelude::*;

use crate::bytes::bytes_eq;

verus! {

/// A map keyed by byte strings, kept as parallel vectors of keys and values.
pub struct ByteMap<V> {
    keys: Vec<Vec<u8>>,
    vals: Vec<V>,
    contents: Ghost<Map<Seq<u8>, V>>,
}

impl<V> ByteMap<V> {
    /// What the map holds.
    pub closed spec fn view(&self) -> Map<Seq<u8>, V> {
        self.contents@
    }

    /// Keys are unique and each key's value sits at the key's index.
    pub closed spec fn wf(&self) -> bool {
        &&& self.keys@.len() == self.vals@.len()
        &&& forall|i: int, j: int|
            0 <= i < j < self.keys@.len() ==> self.keys@[i]@ != self.keys@[j]@
        &&& forall|i: int|
            0 <= i < self.keys@.len() ==> #[trigger] self.contents@.contains_key(self.keys@[i]@)
                && self.contents@[self.keys@[i]@] == self.vals@[i]
        &&& forall|k: Seq<u8>|
            #[trigger] self.contents@.contains_key(k) ==> exists|i: int|
                0 <= i < self.keys@.len() && self.keys@[i]@ == k
    }

    pub fn new() -> (r: Self)
        ensures
            r.wf(),
            r@ == Map::<Seq<u8>, V>::empty(),
    {
        ByteMap { keys: Vec::new(), vals: Vec::new(), contents: Ghost(Map::empty()) }
    }

    /// The index at which `k` is stored, if it is.
    fn find(&self, k: &Vec<u8>) -> (r: Option<usize>)
        requires
            self.wf(),
        ensures
            r.is_none() == !self@.contains_key(k@),
            r matches Some(i) ==> i < self.vals@.len() && self.keys@[i as int]@ == k@
                && self@[k@] == self.vals@[i as int],
    {
        let mut i: usize = 0;
        while i < self.keys.len()
            invariant
                self.wf(),
                i <= self.keys@.len(),
                forall|j: int| 0 <= j < i ==> self.keys@[j]@ != k@,
            decreases self.keys@.len() - i,
        {
            if bytes_eq(&self.keys[i], k) {
                return Some(i);
            }
            i = i + 1;
        }
        proof {
            if self@.contains_key(k@) {
                let j = choose|j: int| 0 <= j < self.keys@.len() && self.keys@[j]@ == k@;
                assert(self.keys@[j]@ == k@);
            }
        }
        None
    }

    pub fn contains(&self, k: &Vec<u8>) -> (r: bool)
        requires
            self.wf(),
        ensures
            r == self@.contains_key(k@),
    {
        self.find(k).is_some()
    }

    pub fn get(&self, k: &Vec<u8>) -> (r: Option<&V>)
        requires
            self.wf(),
        ensures
            r.is_none() == !self@.contains_key(k@),
            r matches Some(v) ==> *v == self@[k@],
    {
        match self.find(k) {
            Some(i) => Some(&self.vals[i]),
            None => None,
        }
    }

    /// Sets the value of `k`, adding the key if it is new.
    pub fn insert(&mut self, k: Vec<u8>, v: V)
        requires
            old(self).wf(),
        ensures
            final(self).wf(),
            final(self)@ == old(self)@.insert(k@, v),
    {
        match self.find(&k) {
            Some(i) => {
                let ghost key = self.keys@[i as int]@;
                self.vals.set(i, v);
                self.contents = Ghost(self.contents@.insert(key, v));
                assert forall|j: int| 0 <= j < self.keys@.len() implies #[trigger] self.contents@.contains_key(self.keys@[j]@)
                    && self.contents@[self.keys@[j]@] == self.vals@[j] by {
                    if j != i {
                        assert(self.keys@[j]@ != key);
                    }
                }
                assert forall|kk: Seq<u8>| #[trigger] self.contents@.contains_key(kk) implies exists|j: int|
                    0 <= j < self.keys@.len() && self.keys@[j]@ == kk by {
                    if kk == key {
                        assert(self.keys@[i as int]@ == kk);
                    } else {
                        assert(old(self).contents@.contains_key(kk));
                        let j = choose|j: int| 0 <= j < old(self).keys@.len() && old(self).keys@[j]@ == kk;
                        assert(self.keys@[j]@ == kk);
                    }
                }
            },
            None => {
                let ghost key = k@;
                let ghost n = self.keys@.len() as int;
                self.keys.push(k);
                self.vals.push(v);
                self.contents = Ghost(self.contents@.insert(key, v));
                assert(self.keys@[n]@ == key);
                assert forall|j: int| 0 <= j < self.keys@.len() implies #[trigger] self.contents@.contains_key(self.keys@[j]@)
                    && self.contents@[self.keys@[j]@] == self.vals@[j] by {
                    if j < n {
                        assert(old(self).contents@.contains_key(old(self).keys@[j]@));
                    }
                }
                assert forall|kk: Seq<u8>| #[trigger] self.contents@.contains_key(kk) implies exists|j: int|
                    0 <= j < self.keys@.len() && self.keys@[j]@ == kk by {
                    if kk != key {
                        assert(old(self).contents@.contains_key(kk));
                        let j = choose|j: int| 0 <= j < old(self).keys@.len() && old(self).keys@[j]@ == kk;
                        assert(self.keys@[j]@ == kk);
                    }
                }
                assert forall|a: int, b: int| 0 <= a < b < self.keys@.len() implies self.keys@[a]@ != self.keys@[b]@ by {
                    if b == n {
                        assert(old(self).contents@.contains_key(old(self).keys@[a]@));
                    }
                }
            },
        }
    }
}

} // verus!
