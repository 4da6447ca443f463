//! A finite map keyed by account, kept as two parallel vectors of keys and
//! values in which no account occurs twice.

use vstd::prelude::*;
use crate::primitives::AccountId;

verus! {

/// A map from accounts to values: the library's stand-in for an
/// account-keyed table of contract storage (ink!'s `Mapping`), held as a
/// value so that its operations are verified.
pub struct AccountMap<V> {
    keys: Vec<AccountId>,
    vals: Vec<V>,
}

impl<V> AccountMap<V> {
    /// Keys and values pair up, and no account occurs twice.
    pub closed spec fn wf(&self) -> bool {
        &&& self.keys@.len() == self.vals@.len()
        &&& forall|i: int, j: int|
            0 <= i < self.keys@.len() && 0 <= j < self.keys@.len() && i != j
                ==> (#[trigger] self.keys@[i])@ != (#[trigger] self.keys@[j])@
    }

    /// Whether slot `i` holds the account `who`.
    pub closed spec fn slot_of(&self, who: Seq<u8>, i: int) -> bool {
        0 <= i < self.keys@.len() && self.keys@[i]@ == who
    }

    /// The slot that holds `who`, where there is one.
    pub closed spec fn index_of(&self, who: Seq<u8>) -> int {
        choose|i: int| #[trigger] self.slot_of(who, i)
    }

    /// The map as a mathematical map from account bytes to values.
    pub closed spec fn as_map(&self) -> Map<Seq<u8>, V> {
        Map::new(
            |who: Seq<u8>| exists|i: int| #[trigger] self.slot_of(who, i),
            |who: Seq<u8>| self.vals@[self.index_of(who)],
        )
    }

    proof fn lemma_index_of(&self, who: Seq<u8>, i: int)
        requires
            self.wf(),
            self.slot_of(who, i),
        ensures
            self.index_of(who) == i,
            self.as_map().contains_key(who),
            self.as_map()[who] == self.vals@[i],
    {
        let j = self.index_of(who);
        assert(self.slot_of(who, j));
        assert(self.keys@[i]@ == self.keys@[j]@);
    }

    /// An empty map.
    pub fn new() -> (m: Self)
        ensures
            m.wf(),
            m.as_map() == Map::<Seq<u8>, V>::empty(),
    {
        let m = AccountMap { keys: Vec::new(), vals: Vec::new() };
        assert(m.as_map() =~= Map::<Seq<u8>, V>::empty());
        m
    }

    /// The slot holding `who`, if any.
    fn find(&self, who: &AccountId) -> (slot: Option<usize>)
        requires
            self.wf(),
        ensures
            match slot {
                Some(i) => self.slot_of(who@, i as int),
                None => forall|i: int| !#[trigger] self.slot_of(who@, i),
            },
    {
        let mut i: usize = 0;
        while i < self.keys.len()
            invariant
                0 <= i <= self.keys@.len(),
                forall|j: int| 0 <= j < i ==> !#[trigger] self.slot_of(who@, j),
            decreases self.keys@.len() - i,
        {
            if self.keys[i] == *who {
                return Some(i);
            }
            i = i + 1;
        }
        None
    }

    /// The value stored for `who`, if any.
    pub fn get(&self, who: &AccountId) -> (r: Option<&V>)
        requires
            self.wf(),
        ensures
            match r {
                Some(v) => self.as_map().contains_key(who@) && *v == self.as_map()[who@],
                None => !self.as_map().contains_key(who@),
            },
    {
        match self.find(who) {
            Some(i) => {
                proof {
                    self.lemma_index_of(who@, i as int);
                }
                Some(&self.vals[i])
            },
            None => None,
        }
    }

    /// Stores `value` for `who`, replacing any earlier value.
    pub fn insert(&mut self, who: AccountId, value: V)
        requires
            old(self).wf(),
        ensures
            final(self).wf(),
            final(self).as_map() == old(self).as_map().insert(who@, value),
    {
        let ghost before = *self;
        match self.find(&who) {
            Some(i) => {
                self.vals.set(i, value);
                proof {
                    assert forall|k: Seq<u8>| #[trigger] self.as_map().contains_key(k)
                        == before.as_map().insert(who@, value).contains_key(k) by {
                        if before.as_map().insert(who@, value).contains_key(k) && k != who@ {
                            let j = choose|j: int| #[trigger] before.slot_of(k, j);
                            assert(self.slot_of(k, j));
                        }
                        if k == who@ {
                            assert(self.slot_of(k, i as int));
                        }
                        if self.as_map().contains_key(k) {
                            let j = choose|j: int| #[trigger] self.slot_of(k, j);
                            assert(before.slot_of(k, j));
                        }
                    }
                    assert forall|k: Seq<u8>| #[trigger] self.as_map().contains_key(k)
                        implies self.as_map()[k] == before.as_map().insert(who@, value)[k] by {
                        let j = choose|j: int| #[trigger] self.slot_of(k, j);
                        self.lemma_index_of(k, j);
                        assert(before.slot_of(k, j));
                        before.lemma_index_of(k, j);
                        if k == who@ {
                            assert(self.keys@[j]@ == self.keys@[i as int]@);
                        }
                    }
                    assert(self.as_map() =~= before.as_map().insert(who@, value));
                }
            },
            None => {
                self.keys.push(who);
                self.vals.push(value);
                proof {
                    let n = before.keys@.len() as int;
                    assert forall|i: int, j: int|
                        0 <= i < self.keys@.len() && 0 <= j < self.keys@.len() && i != j
                            implies (#[trigger] self.keys@[i])@ != (#[trigger] self.keys@[j])@ by {
                        if i == n {
                            assert(!before.slot_of(who@, j));
                        } else if j == n {
                            assert(!before.slot_of(who@, i));
                        } else {
                            assert(before.keys@[i] == self.keys@[i]);
                            assert(before.keys@[j] == self.keys@[j]);
                        }
                    }
                    assert forall|k: Seq<u8>| #[trigger] self.as_map().contains_key(k)
                        == before.as_map().insert(who@, value).contains_key(k) by {
                        if before.as_map().contains_key(k) {
                            let j = choose|j: int| #[trigger] before.slot_of(k, j);
                            assert(self.slot_of(k, j));
                        }
                        if k == who@ {
                            assert(self.slot_of(k, n));
                        }
                        if self.as_map().contains_key(k) && k != who@ {
                            let j = choose|j: int| #[trigger] self.slot_of(k, j);
                            assert(j != n);
                            assert(before.slot_of(k, j));
                        }
                    }
                    assert forall|k: Seq<u8>| #[trigger] self.as_map().contains_key(k)
                        implies self.as_map()[k] == before.as_map().insert(who@, value)[k] by {
                        let j = choose|j: int| #[trigger] self.slot_of(k, j);
                        self.lemma_index_of(k, j);
                        if k != who@ {
                            assert(j != n);
                            assert(before.slot_of(k, j));
                            before.lemma_index_of(k, j);
                        } else {
                            self.lemma_index_of(k, n);
                        }
                    }
                    assert(self.as_map() =~= before.as_map().insert(who@, value));
                }
            },
        }
    }
}

} // verus!
