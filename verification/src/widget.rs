//! Widget identifiers.

use vstd::prelude::*;

verus! {

/// The identifier of a widget in the tree.
#[derive(Debug, Clone, Copy, PartialEq, Eq, Structural)]
pub struct Id(pub u64);

impl Id {
    /// Creates an identifier from its raw number.
    pub fn new(raw: u64) -> (id: Id)
        ensures
            id.0 == raw,
    {
        Id(raw)
    }
}

} // verus!
