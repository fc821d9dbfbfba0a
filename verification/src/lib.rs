//! The call-frame layer of a stack-based bytecode virtual machine.
//!
//! An [`ExecutionContext`](execution_context::ExecutionContext) is the state
//! needed to run one logical invocation of a script: an instruction pointer,
//! local and argument storage, a try-region stack, and a handle to the state
//! that all frames of one call chain share — the script, the evaluation
//! stack with its reference counter, the static fields, and a typed
//! extension-state registry.

pub mod evaluation_stack;
pub mod exception_handling_context;
pub mod execution_context;
pub mod reference_counter;
pub mod script;
pub mod slot;
pub mod stack_item;
pub mod states;
