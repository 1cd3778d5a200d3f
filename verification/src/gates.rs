//! Gate kinds and the finalize / padding protocol.

use vstd::prelude::*;

use crate::circuit_builder::BuilderView;
use crate::circuit_builder::CircuitBuilder;
use crate::current_slot::CurrentSlot;
use crate::target::Target;

verus! {

/// A gate kind: the immutable template for one circuit row. Concrete kinds
/// live with the circuit's authors; this layer treats them uniformly and
/// relies only on the stable identity every kind exposes.
pub trait Gate {
    /// The kind's identity in specifications.
    spec fn id_spec(&self) -> u64;

    /// The tag identifying the logical kind. Every instance of one logical
    /// kind reports the same tag, and distinct kinds report distinct tags.
    fn id(&self) -> (tag: u64)
        ensures
            tag == self.id_spec(),
    ;
}

/// A batching gate kind that describes its per-row structure — how many
/// logical operations one row supports and which wires each operation
/// depends on — without committing to a finalize algorithm.
pub trait MultiOpsGate: Gate {
    /// The operation capacity in specifications.
    spec fn num_ops_spec(&self) -> int;

    /// The dependency wires of operation `i` of row `gate_index`, in
    /// specifications.
    spec fn dependencies_spec(&self, gate_index: int, i: int) -> Seq<Target>;

    /// The number of operations one row of this kind supports: a constant of
    /// the kind, at least one.
    fn num_ops(&self) -> (n: usize)
        ensures
            n as int == self.num_ops_spec(),
            n >= 1,
    ;

    /// The ordered wires whose values must be pinned if operation `i` of row
    /// `gate_index` never receives real data. An operation index at or past
    /// the capacity would be a malformed request and is ruled out here.
    fn dependencies_ith_op(&self, gate_index: usize, i: usize) -> (deps: Vec<Target>)
        requires
            i < self.num_ops_spec(),
        ensures
            deps@ == self.dependencies_spec(gate_index as int, i as int),
    ;
}

/// The padding constraints the derived finalize emits for row `gate_index`
/// of kind `g` when the operation slots from `from` upward are unused: for
/// each such slot in increasing order, each of its dependency wires in order,
/// paired with the zero wire.
pub open spec fn multi_ops_padding<G: MultiOpsGate>(
    g: &G,
    gate_index: int,
    from: int,
    zero: Target,
) -> Seq<(Target, Target)>
    decreases g.num_ops_spec() - from,
{
    if from < g.num_ops_spec() {
        g.dependencies_spec(gate_index, from).map_values(|w: Target| (w, zero))
            + multi_ops_padding(g, gate_index, from + 1, zero)
    } else {
        Seq::empty()
    }
}

/// The constraints one finalize call appends: the padding of the row the
/// tracker holds open for `params`, or nothing when the tracker holds no
/// record for `params`.
pub open spec fn fill_effect<G: BatchableGate>(
    g: &G,
    slots: Map<Seq<u64>, (usize, usize)>,
    params: Seq<u64>,
    zero: Target,
) -> Seq<(Target, Target)> {
    if slots.contains_key(params) {
        g.padding_spec(slots[params].0 as int, slots[params].1 as int, zero)
    } else {
        Seq::empty()
    }
}

/// The builder state after one finalize call on a builder in state `b`: the
/// zero wire is untouched and the call's padding constraints are appended.
pub open spec fn finalize_result<G: BatchableGate>(
    g: &G,
    slots: Map<Seq<u64>, (usize, usize)>,
    params: Seq<u64>,
    b: BuilderView,
) -> BuilderView {
    BuilderView { zero: b.zero, connections: b.connections + fill_effect(g, slots, params, b.zero) }
}

/// Padding completeness, covering direction: every dependency wire of every
/// unused operation slot — slot `i` at or past `from`, wire `j` of its
/// dependencies — gets an equality constraint against the zero wire.
pub proof fn lemma_padding_covers_unused<G: MultiOpsGate>(
    g: &G,
    gate_index: int,
    from: int,
    zero: Target,
    i: int,
    j: int,
)
    requires
        from <= i < g.num_ops_spec(),
        0 <= j < g.dependencies_spec(gate_index, i).len(),
    ensures
        multi_ops_padding(g, gate_index, from, zero).contains(
            (g.dependencies_spec(gate_index, i)[j], zero),
        ),
    decreases i - from,
{
    let deps = g.dependencies_spec(gate_index, from);
    let mapped = deps.map_values(|w: Target| (w, zero));
    let rest = multi_ops_padding(g, gate_index, from + 1, zero);
    assert(multi_ops_padding(g, gate_index, from, zero) == mapped + rest);
    if from == i {
        assert(mapped[j] == (deps[j], zero));
        assert((mapped + rest)[j] == mapped[j]);
    } else {
        lemma_padding_covers_unused(g, gate_index, from + 1, zero, i, j);
        let c = (g.dependencies_spec(gate_index, i)[j], zero);
        let k = choose|k: int| 0 <= k < rest.len() && rest[k] == c;
        assert((mapped + rest)[mapped.len() + k] == c);
    }
}

/// Padding completeness, sparing direction: every emitted constraint pins
/// some dependency wire of some unused slot — one at or past `from` — to the
/// zero wire; packed slots below `from` contribute nothing.
pub proof fn lemma_padding_only_unused<G: MultiOpsGate>(
    g: &G,
    gate_index: int,
    from: int,
    zero: Target,
    c: (Target, Target),
)
    requires
        multi_ops_padding(g, gate_index, from, zero).contains(c),
    ensures
        c.1 == zero,
        exists|i: int, j: int|
            from <= i < g.num_ops_spec() && 0 <= j < g.dependencies_spec(gate_index, i).len()
                && g.dependencies_spec(gate_index, i)[j] == c.0,
    decreases g.num_ops_spec() - from,
{
    if from < g.num_ops_spec() {
        let deps = g.dependencies_spec(gate_index, from);
        let mapped = deps.map_values(|w: Target| (w, zero));
        let rest = multi_ops_padding(g, gate_index, from + 1, zero);
        assert(multi_ops_padding(g, gate_index, from, zero) == mapped + rest);
        let k = choose|k: int|
            0 <= k < (mapped + rest).len() && (mapped + rest)[k] == c;
        if k < mapped.len() {
            assert(mapped[k] == (deps[k], zero));
            assert(from <= from < g.num_ops_spec() && 0 <= k < g.dependencies_spec(
                gate_index,
                from,
            ).len() && g.dependencies_spec(gate_index, from)[k] == c.0);
        } else {
            assert(rest[k - mapped.len()] == c);
            lemma_padding_only_unused(g, gate_index, from + 1, zero, c);
        }
    }
}

/// How many dependency wires the operation slots from `from` upward hold in
/// all, counting every occurrence.
pub open spec fn unused_deps_count<G: MultiOpsGate>(g: &G, gate_index: int, from: int) -> int
    decreases g.num_ops_spec() - from,
{
    if from < g.num_ops_spec() {
        g.dependencies_spec(gate_index, from).len() + unused_deps_count(g, gate_index, from + 1)
    } else {
        0
    }
}

/// Padding completeness, count: the derived finalize emits exactly one
/// constraint per dependency-wire occurrence of the unused slots, no more.
pub proof fn lemma_padding_count<G: MultiOpsGate>(
    g: &G,
    gate_index: int,
    from: int,
    zero: Target,
)
    ensures
        multi_ops_padding(g, gate_index, from, zero).len() == unused_deps_count(
            g,
            gate_index,
            from,
        ),
    decreases g.num_ops_spec() - from,
{
    if from < g.num_ops_spec() {
        lemma_padding_count(g, gate_index, from + 1, zero);
    }
}

/// With no unused slots — `next_free` at (or past) the capacity — the
/// derived finalize emits nothing: the padding range is empty.
pub proof fn lemma_full_row_no_padding<G: MultiOpsGate>(
    g: &G,
    gate_index: int,
    next_free: int,
    zero: Target,
)
    requires
        next_free >= g.num_ops_spec(),
    ensures
        multi_ops_padding(g, gate_index, next_free, zero) == Seq::<(Target, Target)>::empty(),
{
}

/// Finalize for a parameter vector the tracker never saw is a no-op: the
/// builder comes out exactly as it went in.
pub proof fn lemma_absent_params_no_op<G: BatchableGate>(
    g: &G,
    slots: Map<Seq<u64>, (usize, usize)>,
    params: Seq<u64>,
    b: BuilderView,
)
    requires
        !slots.contains_key(params),
    ensures
        finalize_result(g, slots, params, b) == b,
{
    assert(finalize_result(g, slots, params, b) =~= b);
}

/// Finalize never changes the tracker — it only ever reads it through a
/// shared reference — so a second call with no intervening tracker update
/// appends the identical padding once more.
pub proof fn lemma_refinalize_same_padding<G: BatchableGate>(
    g: &G,
    slots: Map<Seq<u64>, (usize, usize)>,
    params: Seq<u64>,
    b: BuilderView,
)
    ensures
        ({
            let once = finalize_result(g, slots, params, b);
            let twice = finalize_result(g, slots, params, once);
            twice.zero == b.zero && twice.connections == b.connections + fill_effect(
                g,
                slots,
                params,
                b.zero,
            ) + fill_effect(g, slots, params, b.zero)
        }),
{
}

/// A gate kind that can close out a partially filled row. Kinds whose
/// batching is operation-indexed receive this whole protocol from their
/// `MultiOpsGate` description; a kind batched in some other shape implements
/// it directly and states in `padding_spec` what it emits.
pub trait BatchableGate: Gate {
    /// The equality constraints this kind emits to close out row
    /// `gate_index` when the operation slots from `next_free` upward are
    /// unused, given the builder's zero wire.
    spec fn padding_spec(&self, gate_index: int, next_free: int, zero: Target) -> Seq<
        (Target, Target),
    >;

    /// Closes out the row the tracker holds open for `params`, if any. When
    /// the tracker records `(row, next_free)` for `params`, exactly the
    /// padding constraints of the row's unused slots are registered with the
    /// builder; when it records nothing, the builder is left untouched. The
    /// tracker is only read, never changed.
    fn fill_gate(
        &self,
        params: &Vec<u64>,
        current_slot: &CurrentSlot,
        builder: &mut CircuitBuilder,
    )
        ensures
            final(builder)@.zero == old(builder)@.zero,
            final(builder)@.connections == old(builder)@.connections + (
            if current_slot@.contains_key(params@) {
                self.padding_spec(
                    current_slot@[params@].0 as int,
                    current_slot@[params@].1 as int,
                    old(builder)@.zero,
                )
            } else {
                Seq::<(Target, Target)>::empty()
            }),
    ;
}

impl<G: MultiOpsGate> BatchableGate for G {
    /// The derived padding: every dependency wire of every unused operation
    /// slot, pinned to zero, slots in increasing order.
    open spec fn padding_spec(&self, gate_index: int, next_free: int, zero: Target) -> Seq<
        (Target, Target),
    > {
        multi_ops_padding(self, gate_index, next_free, zero)
    }

    fn fill_gate(
        &self,
        params: &Vec<u64>,
        current_slot: &CurrentSlot,
        builder: &mut CircuitBuilder,
    ) {
        let slot = current_slot.get(params);
        if let Some((gate_index, op)) = slot {
            let zero = builder.zero();
            let ghost c0 = builder@.connections;
            let n = self.num_ops();
            let mut i = op;
            while i < n
                invariant
                    n as int == self.num_ops_spec(),
                    builder@.zero == old(builder)@.zero,
                    zero == old(builder)@.zero,
                    builder@.connections + multi_ops_padding(
                        self,
                        gate_index as int,
                        i as int,
                        zero,
                    ) == c0 + multi_ops_padding(self, gate_index as int, op as int, zero),
                    c0 == old(builder)@.connections,
                decreases n - i,
            {
                let deps = self.dependencies_ith_op(gate_index, i);
                let ghost centry = builder@.connections;
                let mut j: usize = 0;
                while j < deps.len()
                    invariant
                        j <= deps.len(),
                        builder@.zero == zero,
                        builder@.connections == centry + deps@.take(j as int).map_values(
                            |w: Target| (w, zero),
                        ),
                    decreases deps.len() - j,
                {
                    builder.connect(deps[j], zero);
                    proof {
                        assert(builder@.connections =~= centry + deps@.take(
                            j as int + 1,
                        ).map_values(|w: Target| (w, zero)));
                    }
                    j += 1;
                }
                proof {
                    assert(deps@.take(deps@.len() as int) =~= deps@);
                    assert((centry + deps@.map_values(|w: Target| (w, zero)))
                        + multi_ops_padding(self, gate_index as int, i as int + 1, zero)
                        =~= centry + multi_ops_padding(self, gate_index as int, i as int, zero));
                }
                i += 1;
            }
            proof {
                assert(builder@.connections + Seq::<(Target, Target)>::empty()
                    =~= builder@.connections);
                assert(builder@.connections == old(builder)@.connections + multi_ops_padding(
                    self,
                    gate_index as int,
                    op as int,
                    zero,
                ));
            }
        } else {
            proof {
                assert(old(builder)@.connections + Seq::<(Target, Target)>::empty()
                    =~= old(builder)@.connections);
            }
        }
    }
}

} // verus!
