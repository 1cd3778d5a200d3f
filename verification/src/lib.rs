//! Gate batching for arithmetic-circuit construction.
//!
//! A circuit row ("gate") can host several logical operations at once. This
//! crate provides the pieces that make such batching sound: identity-based
//! handles to gate kinds, a tracker recording how far each row is filled, and
//! a finalize protocol that pins the dependency wires of every unused
//! operation slot to the circuit's zero constant.

pub mod circuit_builder;
pub mod column_gate;
pub mod current_slot;
pub mod gate_ref;
pub mod gates;
pub mod target;

pub use circuit_builder::BuilderView;
pub use circuit_builder::CircuitBuilder;
pub use column_gate::ColumnGate;
pub use current_slot::CurrentSlot;
pub use gate_ref::GateRef;
pub use gates::BatchableGate;
pub use gates::Gate;
pub use gates::MultiOpsGate;
pub use target::Target;
