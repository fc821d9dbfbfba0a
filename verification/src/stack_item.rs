//! Values held on the evaluation stack.

use vstd::prelude::*;

verus! {

/// A VM value, reduced to the identity that reference counting tracks.
///
/// The payload of a value is opaque to the call-frame layer; all this layer
/// ever does with a value is move it between stack positions and report each
/// move to the reference counter, which counts positions per identity. Two
/// items are the same value exactly when their identities are equal.
#[derive(Clone, Copy, Debug, PartialEq, Eq, Structural, Hash)]
pub struct StackItem {
    /// The identity under which the reference counter tracks this value.
    pub id: u64,
}

impl StackItem {
    /// Wraps an identity as a stack value.
    pub fn new(id: u64) -> (item: StackItem)
        ensures
            item.id == id,
    {
        StackItem { id }
    }
}

} // verus!
