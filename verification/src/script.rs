//! The immutable bytecode unit a context executes.

use vstd::prelude::*;

verus! {

/// An immutable sequence of bytecode, shared read-only by any number of
/// contexts. The call-frame layer reads only its length (for instruction
/// pointer wraparound) and individual bytes; decoding is the engine's job.
#[derive(Clone, Debug)]
pub struct Script {
    code: Vec<u8>,
}

impl View for Script {
    type V = Seq<u8>;

    closed spec fn view(&self) -> Seq<u8> {
        self.code@
    }
}

impl Script {
    /// Wraps a byte sequence as a script.
    pub fn new(code: Vec<u8>) -> (script: Script)
        ensures
            script@ == code@,
    {
        Script { code }
    }

    /// The number of bytes of bytecode.
    pub fn len(&self) -> (n: usize)
        ensures
            n == self@.len(),
    {
        self.code.len()
    }

    /// The byte at `offset`.
    pub fn byte_at(&self, offset: usize) -> (b: u8)
        requires
            offset < self@.len(),
        ensures
            b == self@[offset as int],
    {
        self.code[offset]
    }
}

} // verus!
