//! One active try/catch/finally region.

use vstd::prelude::*;

verus! {

/// One active try region of a frame. The call-frame layer only keeps these
/// in LIFO order on a frame-private try stack; matching an exception to a
/// handler and unwinding belong to the engine's exception-dispatch logic,
/// which walks that stack from its top.
#[derive(Clone, Copy, Debug, PartialEq, Eq, Structural)]
pub struct ExceptionHandlingContext {
    /// Bytecode offset of the catch block, or `usize::MAX` when the region
    /// has no catch block.
    pub catch_pointer: usize,
    /// Bytecode offset of the finally block, or `usize::MAX` when the region
    /// has no finally block.
    pub finally_pointer: usize,
}

impl ExceptionHandlingContext {
    /// Records a try region by the offsets of its handler blocks.
    pub fn new(catch_pointer: usize, finally_pointer: usize) -> (ehc: ExceptionHandlingContext)
        ensures
            ehc.catch_pointer == catch_pointer,
            ehc.finally_pointer == finally_pointer,
    {
        ExceptionHandlingContext { catch_pointer, finally_pointer }
    }
}

} // verus!
