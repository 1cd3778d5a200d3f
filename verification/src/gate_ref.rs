//! Identity-stable handles to gate kinds.

use std::sync::Arc;

use vstd::prelude::*;
use vstd::std_specs::cmp::PartialEqSpec;

use crate::gates::Gate;

verus! {

/// Relies on std's `Arc::clone`: the clone shares the original's allocation,
/// so it carries the very value the original carries.
#[verifier::external_body]
fn arc_clone<T>(a: &Arc<T>) -> (r: Arc<T>)
    ensures
        r == *a,
{
    Arc::clone(a)
}

/// A shared, reference-counted handle to one gate-kind instance, with value
/// semantics given by the wrapped kind's identity alone: two handles compare
/// equal exactly when the kinds they wrap report the same identity, no
/// matter which instance either of them wraps. The handle carries no mutable
/// state, so aliasing it is always safe.
pub struct GateRef<G>(pub Arc<G>);

impl<G> GateRef<G> {
    /// A handle wrapping the given kind instance.
    pub fn new(gate: G) -> (r: GateRef<G>)
        ensures
            *r.0 == gate,
    {
        GateRef(Arc::new(gate))
    }
}

impl<G> Clone for GateRef<G> {
    /// An alias of the handle: the clone shares the wrapped instance.
    fn clone(&self) -> (r: Self)
        ensures
            r.0 == self.0,
    {
        GateRef(arc_clone(&self.0))
    }
}

impl<G: Gate> GateRef<G> {
    /// The wrapped kind's identity tag: the value equality goes by, and the
    /// key under which a handle is hashed or indexed.
    pub fn id(&self) -> (tag: u64)
        ensures
            tag == self.0.id_spec(),
    {
        self.0.id()
    }
}

impl<G: Gate> PartialEq for GateRef<G> {
    fn eq(&self, other: &Self) -> (r: bool) {
        self.0.id() == other.0.id()
    }
}

impl<G: Gate> Eq for GateRef<G> {}

impl<G: Gate> vstd::std_specs::cmp::PartialEqSpecImpl for GateRef<G> {
    open spec fn obeys_eq_spec() -> bool {
        true
    }

    open spec fn eq_spec(&self, other: &GateRef<G>) -> bool {
        self.0.id_spec() == other.0.id_spec()
    }
}

/// Identity law: handles are equal — as `==` between `GateRef` values means
/// in specifications — exactly when the wrapped instances report the same
/// identity, whichever instances they wrap; handles of differing identity
/// are never equal. Equal handles then also agree on `id`, the key a handle
/// is hashed or indexed under.
pub proof fn lemma_identity_semantics<G: Gate>(a: &GateRef<G>, b: &GateRef<G>)
    ensures
        a.eq_spec(b) <==> a.0.id_spec() == b.0.id_spec(),
{
}

} // verus!
