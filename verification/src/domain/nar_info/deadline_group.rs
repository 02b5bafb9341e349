//! A set of deadlines, one per key, of which only the earliest matters.
use std::collections::HashMap;

use vstd::prelude::*;
use vstd::std_specs::iter::IteratorSpec;

verus! {

broadcast use vstd::std_specs::hash::group_hash_axioms;

/// Deadlines in milliseconds of a monotonic clock, each under a key.
pub struct DeadlineGroup {
    deadlines: HashMap<usize, u64>,
}

impl View for DeadlineGroup {
    type V = Map<usize, u64>;

    closed spec fn view(&self) -> Map<usize, u64> {
        self.deadlines@
    }
}

impl DeadlineGroup {
    /// No deadlines.
    pub fn new() -> (r: DeadlineGroup)
        ensures
            r@ == Map::<usize, u64>::empty(),
    {
        DeadlineGroup { deadlines: HashMap::new() }
    }

    pub fn is_empty(&self) -> (r: bool)
        ensures
            r == (self@ =~= Map::<usize, u64>::empty()),
    {
        let r = self.deadlines.is_empty();
        proof {
            if !r {
                let k = self@.dom().choose();
                assert(self@.dom().contains(k));
                assert(!Map::<usize, u64>::empty().dom().contains(k));
            }
        }
        r
    }

    /// Sets the deadline of `key` to `deadline`, unless it already has an
    /// earlier one.
    pub fn insert_or_set_earlier(&mut self, key: usize, deadline: u64)
        ensures
            final(self)@ == old(self)@.insert(
                key,
                if old(self)@.contains_key(key) && old(self)@[key] < deadline {
                    old(self)@[key]
                } else {
                    deadline
                },
            ),
    {
        let keep = match self.deadlines.get(&key) {
            Some(current) => *current < deadline,
            None => false,
        };
        if keep {
            assert(old(self)@.insert(key, old(self)@[key]) =~= old(self)@);
        } else {
            self.deadlines.insert(key, deadline);
        }
    }

    /// Drops the deadline of `key`, if it has one.
    pub fn remove(&mut self, key: usize)
        ensures
            final(self)@ == old(self)@.remove(key),
    {
        self.deadlines.remove(&key);
    }

    /// A key with the earliest deadline, and that deadline; `None` when there
    /// are no deadlines.
    pub fn earliest(&self) -> (r: Option<(usize, u64)>)
        ensures
            match r {
                Some((key, deadline)) => {
                    &&& self@.contains_key(key)
                    &&& self@[key] == deadline
                    &&& forall|k: usize| #[trigger] self@.contains_key(k) ==> deadline <= self@[k]
                },
                None => self@ =~= Map::<usize, u64>::empty(),
            },
    {
        let ghost m = self@;
        let mut best: Option<(usize, u64)> = None;
        for entry in it: self.deadlines.iter()
            invariant
                it.seq() == vstd::std_specs::hash::spec_hash_map_iter(&self.deadlines).remaining(),
                m == self@,
                match best {
                    Some((bk, bv)) => {
                        &&& m.contains_key(bk)
                        &&& m[bk] == bv
                        &&& forall|j: int| 0 <= j < it.index() ==> bv <= *(#[trigger] it.seq()[j]).1
                    },
                    None => it.index() == 0,
                },
        {
            let (k, v) = entry;
            best = match best {
                Some((bk, bv)) => if *v < bv {
                    Some((*k, *v))
                } else {
                    Some((bk, bv))
                },
                None => Some((*k, *v)),
            };
        }
        best
    }
}

} // verus!
