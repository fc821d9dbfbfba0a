//! Indexable mutable storage for locals, arguments, and static fields.

use crate::stack_item::StackItem;
use vstd::pervasive::VecAdditionalExecFns;
use vstd::prelude::*;

verus! {

/// A fixed-length, indexable, mutable sequence of values, used by a frame
/// for its local variables and arguments and by a shared-state bundle for
/// its static fields. Keeping an index in range is the engine's obligation:
/// a well-formed instruction stream never addresses a slot it did not
/// allocate.
#[derive(Clone, Debug)]
pub struct Slot {
    items: Vec<StackItem>,
}

impl View for Slot {
    type V = Seq<StackItem>;

    closed spec fn view(&self) -> Seq<StackItem> {
        self.items@
    }
}

impl Slot {
    /// Wraps the given values as slot storage.
    pub fn new(items: Vec<StackItem>) -> (slot: Slot)
        ensures
            slot@ == items@,
    {
        Slot { items }
    }

    /// The number of positions in this slot.
    pub fn len(&self) -> (n: usize)
        ensures
            n == self@.len(),
    {
        self.items.len()
    }

    /// The value at `index`.
    pub fn get(&self, index: usize) -> (item: StackItem)
        requires
            index < self@.len(),
        ensures
            item == self@[index as int],
    {
        self.items[index]
    }

    /// Replaces the value at `index`.
    pub fn put(&mut self, index: usize, item: StackItem)
        requires
            index < old(self)@.len(),
        ensures
            final(self)@ == old(self)@.update(index as int, item),
    {
        self.items.set(index, item);
    }
}

} // verus!
