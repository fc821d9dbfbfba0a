//! The LIFO container of values a call chain computes with.

use crate::reference_counter::ReferenceCounter;
use crate::stack_item::StackItem;
use vstd::prelude::*;

verus! {

/// Failure of a stack primitive. Either one indicates a defect in the
/// surrounding dispatch loop — a malformed instruction stream asking for an
/// impossible stack operation — and is signaled to the caller rather than
/// recovered from, because continuing with a desynchronized stack would
/// corrupt the reference counts the engine's liveness tracking rests on.
#[derive(Clone, Copy, Debug, PartialEq, Eq, Structural)]
pub enum VmError {
    /// `pop` was asked for a value from an empty stack.
    StackUnderflow,
    /// `peek` or `remove` addressed a depth the stack does not reach.
    IndexOutOfRange,
}

/// How many positions of `s` hold the value with identity `id`.
pub open spec fn multiplicity(s: Seq<StackItem>, id: u64) -> nat
    decreases s.len(),
{
    if s.len() == 0 {
        0nat
    } else {
        multiplicity(s.drop_last(), id) + (if s.last().id == id {
            1nat
        } else {
            0nat
        })
    }
}

/// No identity can occupy more positions than the stack has.
pub proof fn lemma_multiplicity_le_len(s: Seq<StackItem>, id: u64)
    ensures
        multiplicity(s, id) <= s.len(),
    decreases s.len(),
{
    if s.len() > 0 {
        lemma_multiplicity_le_len(s.drop_last(), id);
    }
}

/// Appending one value raises its identity's multiplicity by one and no
/// other identity's at all.
pub proof fn lemma_multiplicity_push(s: Seq<StackItem>, item: StackItem)
    ensures
        forall|id: u64|
            #[trigger] multiplicity(s.push(item), id) == multiplicity(s, id) + (if item.id == id {
                1nat
            } else {
                0nat
            }),
{
    assert(s.push(item).drop_last() =~= s);
    assert(s.push(item).last() == item);
}

/// Removing the value at position `i` lowers its identity's multiplicity by
/// one and no other identity's at all.
pub proof fn lemma_multiplicity_remove(s: Seq<StackItem>, i: int)
    requires
        0 <= i < s.len(),
    ensures
        forall|id: u64|
            #[trigger] multiplicity(s.remove(i), id) == multiplicity(s, id) - (if s[i].id == id {
                1nat
            } else {
                0nat
            }),
    decreases s.len(),
{
    if i == s.len() - 1 {
        assert(s.remove(i) =~= s.drop_last());
    } else {
        lemma_multiplicity_remove(s.drop_last(), i);
        assert(s.remove(i).drop_last() =~= s.drop_last().remove(i));
        assert(s.remove(i).last() == s.last());
        assert(s.drop_last()[i] == s[i]);
        assert forall|id: u64|
            #[trigger] multiplicity(s.remove(i), id) == multiplicity(s, id) - (if s[i].id == id {
                1nat
            } else {
                0nat
            }) by {
            assert(multiplicity(s.remove(i), id) == multiplicity(s.remove(i).drop_last(), id) + (
            if s.remove(i).last().id == id {
                1nat
            } else {
                0nat
            }));
            assert(multiplicity(s, id) == multiplicity(s.drop_last(), id) + (if s.last().id == id {
                1nat
            } else {
                0nat
            }));
        }
    }
}

/// The stack contents after the values of `pushed` are pushed in order onto
/// a stack holding `s`: `pushed` lies above `s`, its last value on top, as
/// `push`'s contract yields step by step.
pub open spec fn stack_after_pushes(s: Seq<StackItem>, pushed: Seq<StackItem>) -> Seq<StackItem> {
    s + pushed
}

/// The values that `pops` successive pops return, in the order returned,
/// from a stack holding `s`, as `pop`'s contract yields step by step: each
/// pop takes the value on top.
pub open spec fn values_popped(s: Seq<StackItem>, pops: nat) -> Seq<StackItem>
    decreases pops,
{
    if pops == 0 || s.len() == 0 {
        Seq::empty()
    } else {
        seq![s.last()] + values_popped(s.drop_last(), (pops - 1) as nat)
    }
}

/// The stack contents that `pops` successive pops leave behind on a stack
/// holding `s`.
pub open spec fn stack_after_pops(s: Seq<StackItem>, pops: nat) -> Seq<StackItem>
    decreases pops,
{
    if pops == 0 || s.len() == 0 {
        s
    } else {
        stack_after_pops(s.drop_last(), (pops - 1) as nat)
    }
}

/// LIFO law: pushing the values of `pushed` in order and then popping as
/// many values returns exactly the values of `pushed`, most recently pushed
/// first, and leaves the stack as it stood before the pushes. The matching
/// reference-count half of the law stands in the contracts of `push` and
/// `pop` themselves: each push registers exactly one reference for its value
/// and each pop deregisters exactly one for the value it returns.
pub proof fn lemma_lifo(s: Seq<StackItem>, pushed: Seq<StackItem>)
    ensures
        values_popped(stack_after_pushes(s, pushed), pushed.len()) == pushed.reverse(),
        stack_after_pops(stack_after_pushes(s, pushed), pushed.len()) == s,
    decreases pushed.len(),
{
    if pushed.len() == 0 {
        assert(s + pushed =~= s);
        assert(pushed.reverse() =~= Seq::<StackItem>::empty());
    } else {
        lemma_lifo(s, pushed.drop_last());
        assert((s + pushed).len() > 0);
        assert((s + pushed).drop_last() =~= s + pushed.drop_last());
        assert((s + pushed).last() == pushed.last());
        assert(pushed.reverse() =~= seq![pushed.last()] + pushed.drop_last().reverse());
    }
}

/// The most recently pushed value not yet removed is what depth 0 holds:
/// whatever stood on a stack, after a push its top — the value `peek(0)`
/// yields — is the pushed value.
pub proof fn lemma_top_after_push(s: Seq<StackItem>, item: StackItem)
    ensures
        s.push(item).len() >= 1,
        s.push(item)[s.push(item).len() - 1] == item,
{
}

/// A LIFO container of VM values, owned by one shared-state bundle and
/// bound to a reference counter. Every change of membership goes through
/// `push`, `pop` or `remove`, each of which reports the change to the
/// counter exactly once; no other code path adds or removes entries.
#[derive(Clone, Debug)]
pub struct EvaluationStack {
    items: Vec<StackItem>,
    reference_counter: ReferenceCounter,
}

impl View for EvaluationStack {
    type V = Seq<StackItem>;

    closed spec fn view(&self) -> Seq<StackItem> {
        self.items@
    }
}

impl EvaluationStack {
    /// The reference counter this stack reports every membership change to.
    pub closed spec fn counter(self) -> ReferenceCounter {
        self.reference_counter
    }

    /// Balanced bookkeeping: every identity's reference count is exactly the
    /// number of stack positions holding it.
    pub open spec fn wf(self) -> bool {
        forall|id: u64| self.counter().count(id) == multiplicity(self@, id)
    }

    /// Creates an empty stack bound to `reference_counter`, which must not
    /// yet count any references, as a freshly created counter does not.
    pub fn new(reference_counter: ReferenceCounter) -> (stack: EvaluationStack)
        requires
            reference_counter.is_fresh(),
        ensures
            stack.wf(),
            stack@ == Seq::<StackItem>::empty(),
            stack.counter() == reference_counter,
    {
        let stack = EvaluationStack { items: Vec::new(), reference_counter };
        proof {
            assert(stack@ =~= Seq::<StackItem>::empty());
        }
        stack
    }

    /// The current depth of the stack.
    pub fn len(&self) -> (depth: usize)
        ensures
            depth == self@.len(),
    {
        self.items.len()
    }

    /// Reports how many positions the bound counter currently counts as
    /// holding `item`.
    pub fn stack_references(&self, item: &StackItem) -> (count: usize)
        ensures
            count == self.counter().count(item.id),
    {
        self.reference_counter.stack_references(item)
    }

    /// Appends `item` on top of the stack and registers one new stack
    /// reference for it. Cannot fail; the one side effect beyond the stack
    /// itself is the reference-count increment.
    pub fn push(&mut self, item: StackItem)
        requires
            old(self).wf(),
            old(self)@.len() < usize::MAX,
        ensures
            final(self).wf(),
            final(self)@ == old(self)@.push(item),
            final(self).counter().count(item.id) == old(self).counter().count(item.id) + 1,
            forall|id: u64|
                id != item.id ==> final(self).counter().count(id) == old(self).counter().count(id),
    {
        proof {
            lemma_multiplicity_le_len(self@, item.id);
        }
        self.items.push(item);
        self.reference_counter.add_stack_reference(&item);
        proof {
            lemma_multiplicity_push(old(self)@, item);
        }
    }

    /// Removes and returns the top value, deregistering one stack reference
    /// for it. Fails with `StackUnderflow`, leaving the stack untouched,
    /// exactly when the stack is empty.
    pub fn pop(&mut self) -> (result: Result<StackItem, VmError>)
        requires
            old(self).wf(),
        ensures
            final(self).wf(),
            old(self)@.len() == 0 ==> result == Err::<StackItem, VmError>(VmError::StackUnderflow)
                && *final(self) == *old(self),
            old(self)@.len() > 0 ==> {
                &&& result == Ok::<StackItem, VmError>(old(self)@.last())
                &&& final(self)@ == old(self)@.drop_last()
                &&& final(self).counter().count(old(self)@.last().id) == old(self).counter().count(
                    old(self)@.last().id,
                ) - 1
                &&& forall|id: u64|
                    id != old(self)@.last().id ==> final(self).counter().count(id) == old(self).counter().count(id)
            },
    {
        if self.items.len() == 0 {
            return Err(VmError::StackUnderflow);
        }
        let item = self.items.pop().unwrap();
        proof {
            assert(old(self)@.drop_last() =~= old(self)@.subrange(0, old(self)@.len() - 1));
            assert forall|id: u64|
                multiplicity(old(self)@, id) == multiplicity(old(self)@.drop_last(), id) + (
                if old(self)@.last().id == id {
                    1nat
                } else {
                    0nat
                }) by {}
            assert(self.reference_counter.count(item.id) == multiplicity(old(self)@, item.id));
        }
        self.reference_counter.remove_stack_reference(&item);
        Ok(item)
    }

    /// Returns the value at depth `index` from the top (depth 0 is the top)
    /// without removing it and without touching any reference count. Fails
    /// with `IndexOutOfRange` exactly when `index` is at or beyond the
    /// current depth.
    pub fn peek(&self, index: usize) -> (result: Result<StackItem, VmError>)
        ensures
            index < self@.len() ==> result == Ok::<StackItem, VmError>(
                self@[self@.len() - 1 - index],
            ),
            index >= self@.len() ==> result == Err::<StackItem, VmError>(VmError::IndexOutOfRange),
    {
        if index < self.items.len() {
            let position = self.items.len() - 1 - index;
            Ok(self.items[position])
        } else {
            Err(VmError::IndexOutOfRange)
        }
    }

    /// Removes and returns the value at depth `index` from the top (depth 0
    /// is the top), deregistering one stack reference for it; the remaining
    /// values keep their relative order. Fails with `IndexOutOfRange`,
    /// leaving the stack untouched, exactly when `index` is at or beyond the
    /// current depth.
    pub fn remove(&mut self, index: usize) -> (result: Result<StackItem, VmError>)
        requires
            old(self).wf(),
        ensures
            final(self).wf(),
            index >= old(self)@.len() ==> result == Err::<StackItem, VmError>(
                VmError::IndexOutOfRange,
            ) && *final(self) == *old(self),
            index < old(self)@.len() ==> {
                &&& result == Ok::<StackItem, VmError>(old(self)@[old(self)@.len() - 1 - index])
                &&& final(self)@ == old(self)@.remove(old(self)@.len() - 1 - index)
                &&& final(self)@.len() == old(self)@.len() - 1
                &&& forall|j: int|
                    0 <= j < old(self)@.len() - 1 - index ==> final(self)@[j] == old(self)@[j]
                &&& forall|j: int|
                    old(self)@.len() - 1 - index <= j < old(self)@.len() - 1 ==> final(self)@[j]
                        == old(self)@[j + 1]
                &&& final(self).counter().count(old(self)@[old(self)@.len() - 1 - index].id)
                    == old(self).counter().count(old(self)@[old(self)@.len() - 1 - index].id) - 1
                &&& forall|id: u64|
                    id != old(self)@[old(self)@.len() - 1 - index].id ==> final(self).counter().count(id) == old(self).counter().count(id)
            },
    {
        if index >= self.items.len() {
            return Err(VmError::IndexOutOfRange);
        }
        let position = self.items.len() - 1 - index;
        proof {
            lemma_multiplicity_remove(self@, position as int);
        }
        let item = self.items.remove(position);
        proof {
            assert(multiplicity(old(self)@.remove(position as int), item.id) == multiplicity(
                old(self)@,
                item.id,
            ) - 1nat);
        }
        self.reference_counter.remove_stack_reference(&item);
        Ok(item)
    }
}

} // verus!
