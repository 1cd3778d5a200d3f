//! The builder surface that padding interacts with.

use vstd::prelude::*;

use crate::target::Target;

verus! {

/// Mathematical model of the builder state this layer touches: the wire that
/// carries the constant zero, and the equality constraints registered so far,
/// in order of registration.
#[verifier::ext_equal]
pub struct BuilderView {
    pub zero: Target,
    pub connections: Seq<(Target, Target)>,
}

/// The circuit builder as this layer sees it: it owns a zero-valued constant
/// wire and accepts permanent equality constraints between pairs of wires.
pub struct CircuitBuilder {
    zero: Target,
    connections: Vec<(Target, Target)>,
}

impl View for CircuitBuilder {
    type V = BuilderView;

    closed spec fn view(&self) -> BuilderView {
        BuilderView { zero: self.zero, connections: self.connections@ }
    }
}

impl CircuitBuilder {
    /// A builder whose zero constant lives on the given wire and with no
    /// constraints registered yet.
    pub fn new(zero: Target) -> (b: CircuitBuilder)
        ensures
            b@.zero == zero,
            b@.connections == Seq::<(Target, Target)>::empty(),
    {
        CircuitBuilder { zero, connections: Vec::new() }
    }

    /// The wire guaranteed to equal field value zero in every accepted proof.
    pub fn zero(&self) -> (z: Target)
        ensures
            z == self@.zero,
    {
        self.zero
    }

    /// Registers a permanent equality constraint between wires `a` and `b`.
    pub fn connect(&mut self, a: Target, b: Target)
        ensures
            final(self)@.zero == old(self)@.zero,
            final(self)@.connections == old(self)@.connections.push((a, b)),
    {
        self.connections.push((a, b));
    }

    /// How many equality constraints have been registered.
    pub fn num_connections(&self) -> (n: usize)
        ensures
            n == self@.connections.len(),
    {
        self.connections.len()
    }

    /// The `i`-th registered equality constraint.
    pub fn connection(&self, i: usize) -> (c: (Target, Target))
        requires
            i < self@.connections.len(),
        ensures
            c == self@.connections[i as int],
    {
        self.connections[i]
    }
}

} // verus!
