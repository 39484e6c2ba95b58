use vstd::prelude::*;

verus! {

/// What a node records, as plain values:
/// (lhs partial, rhs partial, lhs parent id, rhs parent id, number of arguments).
pub type NodeView<V> = (V, V, Option<usize>, Option<usize>, usize);

/// A node that represents the differential operation performed on variables
/// inside the computation: the local partial derivative with respect to each
/// argument, the tape position of each argument, and how many arguments there are.
///
/// The scalar type `V` is carried, never computed on: the arithmetic that
/// produces the partials happens outside the library.
#[derive(Debug, Clone)]
pub struct ADNode<V> {
    der: [V; 2],
    ids: [Option<usize>; 2],
    n_args: usize,
}

impl<V> View for ADNode<V> {
    type V = NodeView<V>;

    closed spec fn view(&self) -> NodeView<V> {
        (self.der[0], self.der[1], self.ids[0], self.ids[1], self.n_args)
    }
}

/// A node is well linked at position `pos` of a tape when the number of
/// arguments is at most two, the present parent ids are exactly the first
/// `n_args` slots, and every parent stands strictly before `pos`.
pub open spec fn node_links_before<V>(n: NodeView<V>, pos: int) -> bool {
    &&& n.4 <= 2
    &&& (n.2 is Some <==> n.4 >= 1)
    &&& (n.3 is Some <==> n.4 == 2)
    &&& (n.2 matches Some(p) ==> p < pos)
    &&& (n.3 matches Some(q) ==> q < pos)
}

impl<V: Copy> ADNode<V> {
    pub fn new(der: [V; 2], ids: [Option<usize>; 2], n_args: usize) -> (node: ADNode<V>)
        ensures
            node@ == (der@[0], der@[1], ids@[0], ids@[1], n_args),
    {
        ADNode { der, ids, n_args }
    }

    pub fn lhs_der(&self) -> (d: V)
        ensures
            d == self@.0,
    {
        self.der[0]
    }

    pub fn rhs_der(&self) -> (d: V)
        ensures
            d == self@.1,
    {
        self.der[1]
    }

    pub fn lhs_id(&self) -> (id: Option<usize>)
        ensures
            id == self@.2,
    {
        self.ids[0]
    }

    pub fn rhs_id(&self) -> (id: Option<usize>)
        ensures
            id == self@.3,
    {
        self.ids[1]
    }

    pub fn n_args(&self) -> (n: usize)
        ensures
            n == self@.4,
    {
        self.n_args
    }
}

} // verus!
