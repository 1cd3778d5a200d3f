//! A small batching kind: operation `i` of a row depends on the row's
//! wire in column `i`.

use vstd::prelude::*;

use crate::gates::Gate;
use crate::gates::MultiOpsGate;
use crate::target::Target;

verus! {

/// A batching gate kind whose operation `i` at row `r` depends on the single
/// wire at row `r`, column `i`. The identity tag and the per-row operation
/// capacity are fixed at construction.
#[derive(Clone, Copy, Debug)]
pub struct ColumnGate {
    tag: u64,
    ops: usize,
}

impl ColumnGate {
    #[verifier::type_invariant]
    spec fn capacity_positive(self) -> bool {
        self.ops >= 1
    }

    /// A kind with the given identity tag whose rows each hold `ops`
    /// operations; a row supports at least one operation.
    pub fn new(tag: u64, ops: usize) -> (g: ColumnGate)
        requires
            ops >= 1,
        ensures
            g.id_spec() == tag,
            g.num_ops_spec() == ops,
    {
        ColumnGate { tag, ops }
    }
}

impl Gate for ColumnGate {
    closed spec fn id_spec(&self) -> u64 {
        self.tag
    }

    fn id(&self) -> (tag: u64) {
        self.tag
    }
}

impl MultiOpsGate for ColumnGate {
    closed spec fn num_ops_spec(&self) -> int {
        self.ops as int
    }

    closed spec fn dependencies_spec(&self, gate_index: int, i: int) -> Seq<Target> {
        seq![Target { row: gate_index as usize, column: i as usize }]
    }

    fn num_ops(&self) -> (n: usize) {
        proof {
            use_type_invariant(&*self);
        }
        self.ops
    }

    fn dependencies_ith_op(&self, gate_index: usize, i: usize) -> (deps: Vec<Target>) {
        let mut deps = Vec::new();
        deps.push(Target { row: gate_index, column: i });
        proof {
            assert(deps@ =~= self.dependencies_spec(gate_index as int, i as int));
        }
        deps
    }
}

/// What this kind's operations depend on: operation `i` of row `gate_index`
/// reads the one wire at row `gate_index`, column `i`.
pub proof fn lemma_column_gate_dependencies(g: &ColumnGate, gate_index: int, i: int)
    ensures
        g.dependencies_spec(gate_index, i) == seq![
            Target { row: gate_index as usize, column: i as usize },
        ],
{
}

} // verus!
