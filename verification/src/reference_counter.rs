//! Per-value bookkeeping of how many positions hold each value.

use crate::stack_item::StackItem;
use std::collections::HashMap;
use vstd::prelude::*;

verus! {

broadcast use vstd::std_specs::hash::group_hash_axioms;

/// Tracks, per value identity, how many stack or slot positions currently
/// hold that value, so that the engine's liveness logic can later decide
/// what is still reachable. Every membership change of a container bound to
/// this counter must be reported here exactly once.
#[derive(Clone, Debug)]
pub struct ReferenceCounter {
    counts: HashMap<u64, usize>,
}

impl ReferenceCounter {
    /// The number of positions currently counted as holding the value with
    /// identity `id`.
    pub closed spec fn count(self, id: u64) -> nat {
        if self.counts@.contains_key(id) {
            self.counts@[id] as nat
        } else {
            0nat
        }
    }

    /// A counter that holds no references at all, as a freshly created one
    /// does.
    pub open spec fn is_fresh(self) -> bool {
        forall|id: u64| self.count(id) == 0
    }

    /// Creates a counter with every count at zero.
    pub fn new() -> (counter: ReferenceCounter)
        ensures
            counter.is_fresh(),
    {
        ReferenceCounter { counts: HashMap::new() }
    }

    /// Records that one more position now holds `item`.
    pub fn add_stack_reference(&mut self, item: &StackItem)
        requires
            old(self).count(item.id) < usize::MAX,
        ensures
            final(self).count(item.id) == old(self).count(item.id) + 1,
            forall|id: u64| id != item.id ==> final(self).count(id) == old(self).count(id),
    {
        let current: usize = match self.counts.get(&item.id) {
            Some(c) => *c,
            None => 0,
        };
        self.counts.insert(item.id, current + 1);
    }

    /// Records that one position holding `item` was vacated.
    pub fn remove_stack_reference(&mut self, item: &StackItem)
        requires
            old(self).count(item.id) > 0,
        ensures
            final(self).count(item.id) == old(self).count(item.id) - 1,
            forall|id: u64| id != item.id ==> final(self).count(id) == old(self).count(id),
    {
        let current: usize = match self.counts.get(&item.id) {
            Some(c) => *c,
            None => 0,
        };
        self.counts.insert(item.id, current - 1);
    }

    /// Reports how many positions currently hold `item`.
    pub fn stack_references(&self, item: &StackItem) -> (count: usize)
        ensures
            count == self.count(item.id),
    {
        match self.counts.get(&item.id) {
            Some(c) => *c,
            None => 0,
        }
    }
}

} // verus!
