use std::collections::HashMap;

use batchable::BatchableGate;
use batchable::CircuitBuilder;
use batchable::ColumnGate;
use batchable::CurrentSlot;
use batchable::Gate;
use batchable::GateRef;
use batchable::MultiOpsGate;
use batchable::Target;

fn params(values: &[u64]) -> Vec<u64> {
    values.to_vec()
}

#[test]
fn handles_with_equal_identity_are_equal() {
    let a = GateRef::new(ColumnGate::new(7, 3));
    let b = GateRef::new(ColumnGate::new(7, 5));
    assert!(a == b);
    assert_eq!(a.id(), b.id());
}

#[test]
fn handles_with_differing_identity_are_not_equal() {
    let a = GateRef::new(ColumnGate::new(7, 3));
    let b = GateRef::new(ColumnGate::new(8, 3));
    assert!(a != b);
    assert_ne!(a.id(), b.id());
}

#[test]
fn handle_aliases_compare_equal() {
    let a = GateRef::new(ColumnGate::new(11, 2));
    let b = a.clone();
    assert!(a == b);
    assert_eq!(a.id(), 11);
}

#[test]
fn handles_key_a_map_by_identity() {
    let mut uses: HashMap<u64, u32> = HashMap::new();
    let a = GateRef::new(ColumnGate::new(7, 3));
    let b = GateRef::new(ColumnGate::new(7, 4));
    *uses.entry(a.id()).or_insert(0) += 1;
    *uses.entry(b.id()).or_insert(0) += 1;
    assert_eq!(uses.len(), 1);
    assert_eq!(uses[&a.id()], 2);
}

#[test]
fn tracker_starts_empty() {
    let tracker = CurrentSlot::new();
    assert_eq!(tracker.get(&params(&[1, 2])), None);
}

#[test]
fn tracker_returns_what_was_inserted() {
    let mut tracker = CurrentSlot::new();
    tracker.insert(params(&[5, 6]), 9, 2);
    assert_eq!(tracker.get(&params(&[5, 6])), Some((9, 2)));
    assert_eq!(tracker.get(&params(&[5])), None);
    assert_eq!(tracker.get(&params(&[5, 7])), None);
    assert_eq!(tracker.get(&params(&[5, 6, 0])), None);
}

#[test]
fn tracker_overwrites_a_record() {
    let mut tracker = CurrentSlot::new();
    tracker.insert(params(&[5]), 9, 1);
    tracker.insert(params(&[5]), 9, 2);
    tracker.insert(params(&[8]), 10, 1);
    assert_eq!(tracker.get(&params(&[5])), Some((9, 2)));
    assert_eq!(tracker.get(&params(&[8])), Some((10, 1)));
}

#[test]
fn builder_records_connections_in_order() {
    let zero = Target::wire(0, 0);
    let mut builder = CircuitBuilder::new(zero);
    assert_eq!(builder.zero(), zero);
    assert_eq!(builder.num_connections(), 0);
    builder.connect(Target::wire(1, 2), zero);
    builder.connect(Target::wire(3, 4), Target::wire(5, 6));
    assert_eq!(builder.num_connections(), 2);
    assert_eq!(builder.connection(0), (Target::wire(1, 2), zero));
    assert_eq!(builder.connection(1), (Target::wire(3, 4), Target::wire(5, 6)));
}

#[test]
fn column_gate_reports_its_structure() {
    let gate = ColumnGate::new(3, 4);
    assert_eq!(gate.id(), 3);
    assert_eq!(gate.num_ops(), 4);
    assert_eq!(gate.dependencies_ith_op(9, 2), vec![Target::wire(9, 2)]);
}

#[test]
fn finalize_pads_unused_slots_and_spares_packed_ones() {
    let gate = ColumnGate::new(7, 3);
    let mut tracker = CurrentSlot::new();
    tracker.insert(params(&[5]), 4, 1);
    let zero = Target::wire(0, 0);
    let mut builder = CircuitBuilder::new(zero);
    gate.fill_gate(&params(&[5]), &tracker, &mut builder);
    assert_eq!(builder.num_connections(), 2);
    assert_eq!(builder.connection(0), (Target::wire(4, 1), zero));
    assert_eq!(builder.connection(1), (Target::wire(4, 2), zero));
    for i in 0..builder.num_connections() {
        let (a, b) = builder.connection(i);
        assert_ne!(a, Target::wire(4, 0));
        assert_eq!(b, zero);
    }
}

#[test]
fn finalize_pads_every_slot_of_an_untouched_row() {
    let gate = ColumnGate::new(2, 4);
    let mut tracker = CurrentSlot::new();
    tracker.insert(params(&[9, 9]), 6, 0);
    let zero = Target::wire(0, 3);
    let mut builder = CircuitBuilder::new(zero);
    gate.fill_gate(&params(&[9, 9]), &tracker, &mut builder);
    assert_eq!(builder.num_connections(), 4);
    for i in 0..4 {
        assert_eq!(builder.connection(i), (Target::wire(6, i), zero));
    }
}

#[test]
fn finalize_of_absent_params_is_a_no_op() {
    let gate = ColumnGate::new(7, 3);
    let mut tracker = CurrentSlot::new();
    tracker.insert(params(&[5]), 4, 1);
    let zero = Target::wire(0, 0);
    let mut builder = CircuitBuilder::new(zero);
    gate.fill_gate(&params(&[6]), &tracker, &mut builder);
    assert_eq!(builder.num_connections(), 0);
    assert_eq!(builder.zero(), zero);
}

#[test]
fn finalize_of_a_full_row_is_a_no_op() {
    let gate = ColumnGate::new(7, 3);
    let mut tracker = CurrentSlot::new();
    tracker.insert(params(&[5]), 4, 3);
    let zero = Target::wire(0, 0);
    let mut builder = CircuitBuilder::new(zero);
    gate.fill_gate(&params(&[5]), &tracker, &mut builder);
    assert_eq!(builder.num_connections(), 0);
}

#[test]
fn refinalizing_appends_the_same_padding_again() {
    let gate = ColumnGate::new(7, 3);
    let mut tracker = CurrentSlot::new();
    tracker.insert(params(&[5]), 4, 1);
    let zero = Target::wire(0, 0);
    let mut builder = CircuitBuilder::new(zero);
    gate.fill_gate(&params(&[5]), &tracker, &mut builder);
    let first = builder.num_connections();
    gate.fill_gate(&params(&[5]), &tracker, &mut builder);
    assert_eq!(tracker.get(&params(&[5])), Some((4, 1)));
    assert_eq!(builder.num_connections(), 2 * first);
    for i in 0..first {
        assert_eq!(builder.connection(i), builder.connection(first + i));
    }
}
