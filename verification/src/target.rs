//! Wire references.

use vstd::prelude::*;

verus! {

/// A reference to one value slot in the circuit's wiring: the `column`-th
/// wire of row `row` of the constraint table.
#[derive(Clone, Copy, PartialEq, Eq, Structural, Hash, Debug)]
pub struct Target {
    pub row: usize,
    pub column: usize,
}

impl Target {
    /// The wire at the given row and column.
    pub fn wire(row: usize, column: usize) -> (t: Target)
        ensures
            t == (Target { row, column }),
    {
        Target { row, column }
    }
}

} // verus!
