//! Amounts held per address, as a ledger reports them: an address without an
//! entry holds zero.
use vstd::prelude::*;
use crate::identity::Address;

verus! {

/// Amounts per address, one entry per address.
pub struct Book {
    entries: Vec<(Address, u128)>,
    held: Ghost<Map<Address, nat>>,
}

impl View for Book {
    type V = Map<Address, nat>;

    closed spec fn view(&self) -> Map<Address, nat> {
        self.held@
    }
}

impl Book {
    /// What `a` holds.
    pub open spec fn amount(&self, a: Address) -> nat {
        if self@.contains_key(a) {
            self@[a]
        } else {
            0
        }
    }

    /// Each entry stands for its address in the view, the view holds nothing
    /// else, and no address has two entries.
    pub closed spec fn wf(&self) -> bool {
        &&& forall|i: int|
            0 <= i < self.entries.len() ==> self.held@.contains_key(#[trigger] self.entries@[i].0)
                && self.held@[self.entries@[i].0] == self.entries@[i].1
        &&& forall|a: Address| #[trigger]
            self.held@.contains_key(a) ==> exists|i: int|
                0 <= i < self.entries.len() && #[trigger] self.entries@[i].0 == a
        &&& forall|i: int, j: int|
            0 <= i < j < self.entries.len() ==> #[trigger] self.entries@[i].0
                != #[trigger] self.entries@[j].0
    }

    /// An empty book.
    pub fn new() -> (r: Book)
        ensures
            r.wf(),
            r@ == Map::<Address, nat>::empty(),
    {
        Book { entries: Vec::new(), held: Ghost(Map::empty()) }
    }

    fn find(&self, a: &Address) -> (r: Option<usize>)
        requires
            self.wf(),
        ensures
            match r {
                Some(i) => i < self.entries.len() && self.entries@[i as int].0 == *a,
                None => !self@.contains_key(*a),
            },
    {
        let mut i: usize = 0;
        while i < self.entries.len()
            invariant
                self.wf(),
                i <= self.entries.len(),
                forall|j: int| 0 <= j < i ==> #[trigger] self.entries@[j].0 != *a,
            decreases self.entries.len() - i,
        {
            if self.entries[i].0 == *a {
                return Some(i);
            }
            i = i + 1;
        }
        None
    }

    /// What `a` holds.
    pub fn get(&self, a: &Address) -> (r: u128)
        requires
            self.wf(),
        ensures
            r == self.amount(*a),
    {
        match self.find(a) {
            Some(i) => self.entries[i].1,
            None => 0,
        }
    }

    /// Sets what `a` holds to `v`.
    pub fn set(&mut self, a: Address, v: u128)
        requires
            old(self).wf(),
        ensures
            final(self).wf(),
            final(self)@ == old(self)@.insert(a, v as nat),
    {
        let ghost before = self.entries@;
        match self.find(&a) {
            Some(i) => {
                self.entries.set(i, (a, v));
                self.held = Ghost(self.held@.insert(a, v as nat));
                assert forall|b: Address| #[trigger] self.held@.contains_key(b) implies exists|
                    k: int,
                | 0 <= k < self.entries.len() && #[trigger] self.entries@[k].0 == b by {
                    if b != a {
                        let k = choose|k: int|
                            0 <= k < before.len() && #[trigger] before[k].0 == b;
                        assert(self.entries@[k].0 == b);
                    } else {
                        assert(self.entries@[i as int].0 == b);
                    }
                }
            },
            None => {
                self.entries.push((a, v));
                self.held = Ghost(self.held@.insert(a, v as nat));
                assert forall|b: Address| #[trigger] self.held@.contains_key(b) implies exists|
                    k: int,
                | 0 <= k < self.entries.len() && #[trigger] self.entries@[k].0 == b by {
                    if b != a {
                        let k = choose|k: int|
                            0 <= k < before.len() && #[trigger] before[k].0 == b;
                        assert(self.entries@[k].0 == b);
                    } else {
                        assert(self.entries@[before.len() as int].0 == b);
                    }
                }
            },
        }
    }
}

} // verus!
