//! One call frame of a running script, and the state its call chain shares.

use crate::evaluation_stack::EvaluationStack;
use crate::evaluation_stack::VmError;
use crate::exception_handling_context::ExceptionHandlingContext;
use crate::reference_counter::ReferenceCounter;
use crate::script::Script;
use crate::slot::Slot;
use crate::stack_item::StackItem;
use crate::states::ExtensionState;
use crate::states::StateKey;
use crate::states::StateRegistry;
use vstd::prelude::*;

verus! {

/// Where the instruction pointer stands after one advance in a script of
/// `len` bytes: one past `ip`, wrapping back to offset zero at or past the
/// end of the script.
pub open spec fn next_instruction_pointer(ip: nat, len: nat) -> nat {
    if ip + 1 >= len {
        0nat
    } else {
        ip + 1
    }
}

/// Where the instruction pointer stands after `steps` successive advances
/// from `ip` in a script of `len` bytes.
pub open spec fn instruction_pointer_after(ip: nat, len: nat, steps: nat) -> nat
    decreases steps,
{
    if steps == 0 {
        ip
    } else {
        instruction_pointer_after(next_instruction_pointer(ip, len), len, (steps - 1) as nat)
    }
}

/// Advancing inside the script is plain increment: while the pointer stays
/// short of the end, each step moves it forward by exactly one.
pub proof fn lemma_advance_within_script(ip: nat, len: nat, steps: nat)
    requires
        ip + steps < len,
    ensures
        instruction_pointer_after(ip, len, steps) == ip + steps,
    decreases steps,
{
    if steps > 0 {
        lemma_advance_within_script(ip + 1, len, (steps - 1) as nat);
    }
}

/// Advancing from anywhere inside the script up to its end wraps the
/// pointer to offset zero.
pub proof fn lemma_advance_to_end(ip: nat, len: nat, steps: nat)
    requires
        ip < len,
        ip + steps == len,
    ensures
        instruction_pointer_after(ip, len, steps) == 0,
    decreases steps,
{
    if ip + 1 < len {
        lemma_advance_to_end(ip + 1, len, (steps - 1) as nat);
    } else {
        assert(instruction_pointer_after(0, len, (steps - 1) as nat) == 0);
    }
}

/// Wraparound law: in a script of `len` bytes, one advance at the last
/// offset wraps the pointer to zero, and a full script's worth of advances
/// from offset zero returns it to zero.
pub proof fn lemma_wraparound(len: nat)
    requires
        len >= 1,
    ensures
        next_instruction_pointer((len - 1) as nat, len) == 0,
        instruction_pointer_after(0, len, len) == 0,
{
    lemma_advance_to_end(0, len, len);
}

/// The state one call chain shares. Every frame derived from the chain by a
/// sharing call observes the same script, evaluation stack, static fields
/// and extension-state registry; a frame created for isolated execution gets
/// a fresh bundle of its own.
#[derive(Clone, Debug)]
pub struct SharedStates {
    /// The script the chain executes.
    pub script: Script,
    /// The chain's evaluation stack, bound to its reference counter.
    pub evaluation_stack: EvaluationStack,
    /// The chain's static fields, once the engine allocates them.
    pub static_fields: Option<Slot>,
    /// The chain's typed extension-state registry.
    pub states: StateRegistry,
}

/// One call frame: the state needed to execute one logical invocation of a
/// script. The shared-state bundle is visible to every frame of the call
/// chain; the instruction pointer, return-value count, locals, arguments and
/// try stack are private to this frame — exception regions never cross a
/// call boundary.
#[derive(Clone, Debug)]
pub struct ExecutionContext {
    /// The bundle of state this frame's call chain shares.
    pub shared_states: SharedStates,
    /// The offset of the next instruction in the script.
    pub instruction_pointer: usize,
    /// The number of return values when this context returns; carried for
    /// the engine's call/return mechanism, never interpreted here.
    pub rv_count: i32,
    /// The local variables of this context.
    pub local_variables: Option<Slot>,
    /// The arguments passed to this context.
    pub arguments: Option<Slot>,
    /// The try stack to handle exceptions, innermost region last.
    pub try_stack: Option<Vec<ExceptionHandlingContext>>,
}

impl ExecutionContext {
    /// The values on the chain's evaluation stack, bottom first.
    pub open spec fn stack(self) -> Seq<StackItem> {
        self.shared_states.evaluation_stack@
    }

    /// The reference count the chain's counter holds for identity `id`.
    pub open spec fn count(self, id: u64) -> nat {
        self.shared_states.evaluation_stack.counter().count(id)
    }

    /// A well-formed frame: the chain's reference counts are balanced with
    /// its stack, and the instruction pointer lies inside the script — or at
    /// offset zero when the script is empty.
    pub open spec fn wf(self) -> bool {
        &&& self.shared_states.evaluation_stack.wf()
        &&& self.instruction_pointer < self.shared_states.script@.len()
            || self.instruction_pointer == 0
    }

    /// `self` and `other` agree on every field a stack primitive must leave
    /// alone: all frame-private fields, and everything of the shared bundle
    /// but the evaluation stack.
    pub open spec fn only_stack_differs(self, other: ExecutionContext) -> bool {
        &&& self.instruction_pointer == other.instruction_pointer
        &&& self.rv_count == other.rv_count
        &&& self.local_variables == other.local_variables
        &&& self.arguments == other.arguments
        &&& self.try_stack == other.try_stack
        &&& self.shared_states.script == other.shared_states.script
        &&& self.shared_states.static_fields == other.shared_states.static_fields
        &&& self.shared_states.states == other.shared_states.states
    }

    /// `self` and `other` agree everywhere but possibly the instruction
    /// pointer.
    pub open spec fn only_instruction_pointer_differs(self, other: ExecutionContext) -> bool {
        &&& self.rv_count == other.rv_count
        &&& self.local_variables == other.local_variables
        &&& self.arguments == other.arguments
        &&& self.try_stack == other.try_stack
        &&& self.shared_states == other.shared_states
    }

    /// `self` and `other` agree on every field a registry request must leave
    /// alone: all frame-private fields, and everything of the shared bundle
    /// but the extension-state registry.
    pub open spec fn only_states_differ(self, other: ExecutionContext) -> bool {
        &&& self.instruction_pointer == other.instruction_pointer
        &&& self.rv_count == other.rv_count
        &&& self.local_variables == other.local_variables
        &&& self.arguments == other.arguments
        &&& self.try_stack == other.try_stack
        &&& self.shared_states.script == other.shared_states.script
        &&& self.shared_states.evaluation_stack == other.shared_states.evaluation_stack
        &&& self.shared_states.static_fields == other.shared_states.static_fields
    }

    /// Creates the root frame of a new call chain: a fresh shared bundle
    /// over `script` — an empty evaluation stack bound to the supplied,
    /// still-unused reference counter, no static fields, an empty registry —
    /// with the instruction pointer and return-value count at zero and no
    /// locals, arguments or try regions yet.
    pub fn new(script: Script, reference_counter: ReferenceCounter) -> (context: ExecutionContext)
        requires
            reference_counter.is_fresh(),
        ensures
            context.wf(),
            context.shared_states.script == script,
            context.stack() == Seq::<StackItem>::empty(),
            context.shared_states.evaluation_stack.counter() == reference_counter,
            context.shared_states.static_fields is None,
            forall|key: StateKey| context.shared_states.states.entry(key) is None,
            context.instruction_pointer == 0,
            context.rv_count == 0,
            context.local_variables is None,
            context.arguments is None,
            context.try_stack is None,
    {
        let shared_states = SharedStates {
            script,
            evaluation_stack: EvaluationStack::new(reference_counter),
            static_fields: None,
            states: StateRegistry::new(),
        };
        ExecutionContext {
            shared_states,
            instruction_pointer: 0,
            rv_count: 0,
            local_variables: None,
            arguments: None,
            try_stack: None,
        }
    }

    /// Derives the frame for a callee on a call-class instruction. The
    /// engine decides the sharing policy by what it hands in: the caller's
    /// own bundle, so the callee observes the same evaluation stack, static
    /// fields and extension state, or a brand-new bundle, so the callee runs
    /// isolated. Either way the new frame gets its own instruction pointer —
    /// at the callee's entry offset — its own return-value count and
    /// freshly allocated locals and arguments, and starts with no try
    /// regions: exception regions never cross a call boundary.
    pub fn derive_frame(
        shared_states: SharedStates,
        entry_offset: usize,
        rv_count: i32,
        local_variables: Option<Slot>,
        arguments: Option<Slot>,
    ) -> (context: ExecutionContext)
        requires
            shared_states.evaluation_stack.wf(),
            entry_offset < shared_states.script@.len() || entry_offset == 0,
        ensures
            context.wf(),
            context.shared_states == shared_states,
            context.instruction_pointer == entry_offset,
            context.rv_count == rv_count,
            context.local_variables == local_variables,
            context.arguments == arguments,
            context.try_stack is None,
    {
        ExecutionContext {
            shared_states,
            instruction_pointer: entry_offset,
            rv_count,
            local_variables,
            arguments,
            try_stack: None,
        }
    }

    /// Returns the unique instance of `key`'s extension-state kind in this
    /// frame's call chain, default-initializing and registering it on first
    /// request. A write through the returned handle lands in the chain's
    /// registry, where every later request under the same key — from this
    /// frame or any frame sharing the bundle — observes it; entries of other
    /// kinds and all other state are untouched.
    pub fn get_state(&mut self, key: StateKey) -> (state: &mut ExtensionState)
        ensures
            *state == old(self).shared_states.states.entry_or_default(key),
            final(self).shared_states.states == old(self).shared_states.states.with_entry(
                key,
                *final(state),
            ),
            final(self).shared_states.states.entry(key) == Some(*final(state)),
            forall|k: StateKey|
                k != key ==> final(self).shared_states.states.entry(k)
                    == old(self).shared_states.states.entry(k),
            final(self).only_states_differ(*old(self)),
    {
        self.shared_states.states.get_state(key)
    }

    /// Appends `item` on top of the chain's evaluation stack, registering
    /// one new stack reference for it. Cannot fail; nothing but the stack
    /// and `item`'s reference count changes.
    pub fn push(&mut self, item: StackItem)
        requires
            old(self).wf(),
            old(self).stack().len() < usize::MAX,
        ensures
            final(self).wf(),
            final(self).stack() == old(self).stack().push(item),
            final(self).count(item.id) == old(self).count(item.id) + 1,
            forall|id: u64| id != item.id ==> final(self).count(id) == old(self).count(id),
            final(self).only_stack_differs(*old(self)),
    {
        self.shared_states.evaluation_stack.push(item);
    }

    /// Removes and returns the top of the chain's evaluation stack,
    /// deregistering one stack reference for it. Fails with
    /// `StackUnderflow`, changing nothing, exactly when the stack is empty.
    pub fn pop(&mut self) -> (result: Result<StackItem, VmError>)
        requires
            old(self).wf(),
        ensures
            final(self).wf(),
            final(self).only_stack_differs(*old(self)),
            old(self).stack().len() == 0 ==> result == Err::<StackItem, VmError>(
                VmError::StackUnderflow,
            ) && *final(self) == *old(self),
            old(self).stack().len() > 0 ==> {
                &&& result == Ok::<StackItem, VmError>(old(self).stack().last())
                &&& final(self).stack() == old(self).stack().drop_last()
                &&& final(self).count(old(self).stack().last().id) == old(self).count(
                    old(self).stack().last().id,
                ) - 1
                &&& forall|id: u64|
                    id != old(self).stack().last().id ==> final(self).count(id) == old(self).count(
                        id,
                    )
            },
    {
        self.shared_states.evaluation_stack.pop()
    }

    /// Returns the value at depth `index` from the top of the chain's
    /// evaluation stack (depth 0 is the top) without removing it and without
    /// touching any reference count. Fails with `IndexOutOfRange` exactly
    /// when `index` is at or beyond the current depth.
    pub fn peek(&self, index: usize) -> (result: Result<StackItem, VmError>)
        ensures
            index < self.stack().len() ==> result == Ok::<StackItem, VmError>(
                self.stack()[self.stack().len() - 1 - index],
            ),
            index >= self.stack().len() ==> result == Err::<StackItem, VmError>(
                VmError::IndexOutOfRange,
            ),
    {
        self.shared_states.evaluation_stack.peek(index)
    }

    /// Removes and returns the value at depth `index` from the top of the
    /// chain's evaluation stack (depth 0 is the top), deregistering one
    /// stack reference for it; the remaining values keep their relative
    /// order. Fails with `IndexOutOfRange`, changing nothing, exactly when
    /// `index` is at or beyond the current depth.
    pub fn remove(&mut self, index: usize) -> (result: Result<StackItem, VmError>)
        requires
            old(self).wf(),
        ensures
            final(self).wf(),
            final(self).only_stack_differs(*old(self)),
            index >= old(self).stack().len() ==> result == Err::<StackItem, VmError>(
                VmError::IndexOutOfRange,
            ) && *final(self) == *old(self),
            index < old(self).stack().len() ==> {
                &&& result == Ok::<StackItem, VmError>(
                    old(self).stack()[old(self).stack().len() - 1 - index],
                )
                &&& final(self).stack() == old(self).stack().remove(
                    old(self).stack().len() - 1 - index,
                )
                &&& final(self).stack().len() == old(self).stack().len() - 1
                &&& forall|j: int|
                    0 <= j < old(self).stack().len() - 1 - index ==> final(self).stack()[j] == old(self).stack()[j]
                &&& forall|j: int|
                    old(self).stack().len() - 1 - index <= j < old(self).stack().len() - 1
                        ==> final(self).stack()[j] == old(self).stack()[j + 1]
                &&& final(self).count(old(self).stack()[old(self).stack().len() - 1 - index].id)
                    == old(self).count(old(self).stack()[old(self).stack().len() - 1 - index].id)
                    - 1
                &&& forall|id: u64|
                    id != old(self).stack()[old(self).stack().len() - 1 - index].id ==> final(self).count(id) == old(self).count(id)
            },
    {
        self.shared_states.evaluation_stack.remove(index)
    }

    /// Advances the instruction pointer by one instruction. Stepping to or
    /// past the end of the script wraps the pointer back to offset zero
    /// rather than signaling termination, so a script can be re-entered
    /// cyclically. No other state changes.
    pub fn move_next(&mut self)
        requires
            old(self).wf(),
        ensures
            final(self).wf(),
            final(self).instruction_pointer == next_instruction_pointer(
                old(self).instruction_pointer as nat,
                old(self).shared_states.script@.len(),
            ),
            final(self).only_instruction_pointer_differs(*old(self)),
    {
        let len = self.shared_states.script.len();
        self.instruction_pointer = self.instruction_pointer + 1;
        if self.instruction_pointer >= len {
            self.instruction_pointer = 0;
        }
    }
}

} // verus!
