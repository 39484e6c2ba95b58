use vstd::prelude::*;

use crate::node::{node_links_before, ADNode, NodeView};

verus! {

/// What a tape holds, as plain values: whether recording is on, the nodes in
/// the order they were recorded, and the scalar constants zero, one and minus
/// one that recorded nodes use as partials.
pub struct TapeView<V> {
    pub active: bool,
    pub nodes: Seq<NodeView<V>>,
    pub zero: V,
    pub one: V,
    pub minus_one: V,
}

impl<V> TapeView<V> {
    /// Every node links only to nodes recorded before it, so a sweep from the
    /// last node down to the first visits each node after all its users.
    pub open spec fn ordered(self) -> bool {
        forall|i: int| 0 <= i < self.nodes.len() ==> node_links_before(#[trigger] self.nodes[i], i)
    }

    /// The same tape with one more node at the end.
    pub open spec fn record(self, n: NodeView<V>) -> TapeView<V> {
        TapeView { nodes: self.nodes.push(n), ..self }
    }
}

/// The tape on which a computation records its differential operations.
pub struct Tape<V> {
    active: bool,
    nodes: Vec<ADNode<V>>,
    zero: V,
    one: V,
    minus_one: V,
}

impl<V> View for Tape<V> {
    type V = TapeView<V>;

    closed spec fn view(&self) -> TapeView<V> {
        TapeView {
            active: self.active,
            nodes: self.nodes@.map_values(|n: ADNode<V>| n@),
            zero: self.zero,
            one: self.one,
            minus_one: self.minus_one,
        }
    }
}

impl<V: Copy> Tape<V> {
    /// An empty tape that does not record yet.
    pub fn new(zero: V, one: V, minus_one: V) -> (tape: Tape<V>)
        ensures
            tape@ == (TapeView::<V> { active: false, nodes: Seq::empty(), zero, one, minus_one }),
    {
        let tape = Tape { active: false, nodes: Vec::new(), zero, one, minus_one };
        assert(tape@.nodes =~= Seq::<NodeView<V>>::empty());
        tape
    }

    pub fn is_active(&self) -> (on: bool)
        ensures
            on == self@.active,
    {
        self.active
    }

    /// Turns recording on; the recorded nodes stay as they are.
    pub fn activate(&mut self)
        ensures
            final(self)@ == (TapeView::<V> { active: true, ..old(self)@ }),
    {
        self.active = true;
    }

    pub fn len(&self) -> (n: usize)
        ensures
            n == self@.nodes.len(),
    {
        self.nodes.len()
    }

    pub fn zero(&self) -> (z: V)
        ensures
            z == self@.zero,
    {
        self.zero
    }

    pub fn one(&self) -> (o: V)
        ensures
            o == self@.one,
    {
        self.one
    }

    pub fn minus_one(&self) -> (m: V)
        ensures
            m == self@.minus_one,
    {
        self.minus_one
    }

    /// Appends a node at the end of the tape.
    pub fn push_node(&mut self, node: ADNode<V>)
        ensures
            final(self)@ == old(self)@.record(node@),
    {
        self.nodes.push(node);
        assert(self@.nodes =~= old(self)@.nodes.push(node@));
    }

    pub fn node(&self, i: usize) -> (n: &ADNode<V>)
        requires
            i < self@.nodes.len(),
        ensures
            n@ == self@.nodes[i as int],
    {
        &self.nodes[i]
    }
}

} // verus!
