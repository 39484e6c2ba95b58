use vstd::prelude::*;

use crate::node::{node_links_before, NodeView};
use crate::tape::{Tape, TapeView};

verus! {

/// One accumulation of the reverse sweep: the adjoint of `node`, times
/// `weight`, is added into the adjoint of `parent`.
#[derive(Debug, Clone, Copy)]
pub struct Step<V> {
    pub node: usize,
    pub parent: usize,
    pub weight: V,
}

/// The accumulations that node `i` contributes: one per present parent id,
/// weighted by the partial of that argument, left argument first.
pub open spec fn node_steps<V>(n: NodeView<V>, i: usize) -> Seq<Step<V>> {
    let left = match n.2 {
        Some(p) => seq![Step { node: i, parent: p, weight: n.0 }],
        None => Seq::<Step<V>>::empty(),
    };
    let right = match n.3 {
        Some(q) => seq![Step { node: i, parent: q, weight: n.1 }],
        None => Seq::<Step<V>>::empty(),
    };
    left + right
}

/// The accumulations of nodes `hi - 1` down to `lo`, in that order.
pub open spec fn steps_between<V>(nodes: Seq<NodeView<V>>, lo: int, hi: int) -> Seq<Step<V>>
    decreases hi - lo,
{
    if lo >= hi {
        Seq::empty()
    } else {
        steps_between(nodes, lo + 1, hi) + node_steps(nodes[lo], lo as usize)
    }
}

/// The reverse sweep that gives the adjoints of every node with respect to the
/// node at `output`: the accumulations of nodes `output` down to `0`.
pub open spec fn sweep<V>(t: TapeView<V>, output: int) -> Seq<Step<V>> {
    steps_between(t.nodes, 0, output + 1)
}

proof fn lemma_steps_between_shape<V>(nodes: Seq<NodeView<V>>, lo: int, hi: int)
    requires
        0 <= lo,
        hi <= nodes.len(),
        nodes.len() <= usize::MAX,
        forall|i: int| lo <= i < hi ==> node_links_before(#[trigger] nodes[i], i),
    ensures
        forall|k: int|
            0 <= k < steps_between(nodes, lo, hi).len() ==> {
                let s = #[trigger] steps_between(nodes, lo, hi)[k];
                &&& lo <= s.node < hi
                &&& s.parent < s.node
            },
        forall|a: int, b: int|
            0 <= a < b < steps_between(nodes, lo, hi).len() ==> #[trigger] steps_between(
                nodes,
                lo,
                hi,
            )[a].node >= #[trigger] steps_between(nodes, lo, hi)[b].node,
    decreases hi - lo,
{
    if lo < hi {
        lemma_steps_between_shape(nodes, lo + 1, hi);
        let rest = steps_between(nodes, lo + 1, hi);
        let own = node_steps(nodes[lo], lo as usize);
        assert(steps_between(nodes, lo, hi) == rest + own);
        assert forall|k: int| 0 <= k < own.len() implies #[trigger] own[k].node == lo
            && own[k].parent < lo by {}
        assert forall|k: int| 0 <= k < steps_between(nodes, lo, hi).len() implies {
            let s = #[trigger] steps_between(nodes, lo, hi)[k];
            &&& lo <= s.node < hi
            &&& s.parent < s.node
        } by {
            if k >= rest.len() {
                assert(steps_between(nodes, lo, hi)[k] == own[k - rest.len()]);
            } else {
                assert(steps_between(nodes, lo, hi)[k] == rest[k]);
            }
        }
        assert forall|a: int, b: int|
            0 <= a < b < steps_between(nodes, lo, hi).len() implies #[trigger] steps_between(
            nodes,
            lo,
            hi,
        )[a].node >= #[trigger] steps_between(nodes, lo, hi)[b].node by {
            let all = steps_between(nodes, lo, hi);
            if b < rest.len() {
                assert(all[a] == rest[a] && all[b] == rest[b]);
            } else if a < rest.len() {
                assert(all[a] == rest[a] && all[b] == own[b - rest.len()]);
            } else {
                assert(all[a] == own[a - rest.len()] && all[b] == own[b - rest.len()]);
            }
        }
    }
}

/// The reverse sweep is a valid evaluation order: every step goes from a node
/// at most `output` to an earlier node, and every accumulation into a node
/// comes before every accumulation out of it, so each adjoint is complete
/// when it is used.
pub proof fn lemma_sweep_order<V>(t: TapeView<V>, output: int)
    requires
        t.ordered(),
        0 <= output < t.nodes.len(),
        t.nodes.len() <= usize::MAX,
    ensures
        forall|k: int|
            0 <= k < sweep(t, output).len() ==> #[trigger] sweep(t, output)[k].parent < sweep(
                t,
                output,
            )[k].node <= output,
        forall|a: int, b: int|
            0 <= a < sweep(t, output).len() && 0 <= b < sweep(t, output).len() && #[trigger] sweep(
                t,
                output,
            )[b].parent == #[trigger] sweep(t, output)[a].node ==> b < a,
{
    lemma_steps_between_shape(t.nodes, 0, output + 1);
    let s = sweep(t, output);
    assert forall|a: int, b: int|
        0 <= a < s.len() && 0 <= b < s.len() && #[trigger] s[b].parent == #[trigger] s[a].node
        implies b < a by {
        if a < b {
            assert(s[a].node >= s[b].node);
        }
        assert(s[b].parent < s[b].node);
    }
}

proof fn lemma_steps_between_top<V>(nodes: Seq<NodeView<V>>, lo: int, hi: int)
    requires
        lo < hi,
    ensures
        steps_between(nodes, lo, hi) == node_steps(nodes[hi - 1], (hi - 1) as usize)
            + steps_between(nodes, lo, hi - 1),
    decreases hi - lo,
{
    if lo + 1 == hi {
        assert(steps_between(nodes, lo + 1, hi) =~= Seq::<Step<V>>::empty());
        assert(steps_between(nodes, lo, hi - 1) =~= Seq::<Step<V>>::empty());
        assert(steps_between(nodes, lo, hi) =~= node_steps(nodes[hi - 1], (hi - 1) as usize)
            + steps_between(nodes, lo, hi - 1));
    } else {
        lemma_steps_between_top(nodes, lo + 1, hi);
        let top = node_steps(nodes[hi - 1], (hi - 1) as usize);
        let own = node_steps(nodes[lo], lo as usize);
        assert(steps_between(nodes, lo, hi) == steps_between(nodes, lo + 1, hi) + own);
        assert(steps_between(nodes, lo, hi - 1) == steps_between(nodes, lo + 1, hi - 1) + own);
        assert(steps_between(nodes, lo, hi) =~= top + steps_between(nodes, lo, hi - 1));
    }
}

/// The reverse sweep for `output` is the accumulations of the node at
/// `output` (its left argument first, then its right one, each weighted by
/// that argument's partial), followed by the whole reverse sweep for
/// `output - 1`; for node `0` nothing follows. So it visits every node from
/// `output` down to `0`.
pub proof fn lemma_sweep_from_output_down<V>(t: TapeView<V>, output: int)
    requires
        0 <= output < t.nodes.len(),
    ensures
        sweep(t, output) == ({
            let n = t.nodes[output];
            let left = match n.2 {
                Some(p) => seq![Step { node: output as usize, parent: p, weight: n.0 }],
                None => Seq::<Step<V>>::empty(),
            };
            let right = match n.3 {
                Some(q) => seq![Step { node: output as usize, parent: q, weight: n.1 }],
                None => Seq::<Step<V>>::empty(),
            };
            let rest = if output == 0 {
                Seq::<Step<V>>::empty()
            } else {
                sweep(t, output - 1)
            };
            left + right + rest
        }),
{
    lemma_steps_between_top(t.nodes, 0, output + 1);
    if output == 0 {
        assert(steps_between(t.nodes, 0, 0) =~= Seq::<Step<V>>::empty());
    }
    let n = t.nodes[output];
    let left = match n.2 {
        Some(p) => seq![Step { node: output as usize, parent: p, weight: n.0 }],
        None => Seq::<Step<V>>::empty(),
    };
    let right = match n.3 {
        Some(q) => seq![Step { node: output as usize, parent: q, weight: n.1 }],
        None => Seq::<Step<V>>::empty(),
    };
    let rest = steps_between(t.nodes, 0, output);
    assert(sweep(t, output) =~= left + right + rest);
}

/// The reverse sweep for `output` holds, for every node `k` at most `output`
/// and each of its present argument ids, the accumulation from `k` into that
/// argument with that argument's partial: no node below the output is left
/// out, so the adjoint of an input sums the products of the partials over all
/// paths to the output.
pub proof fn lemma_sweep_covers_every_node<V>(t: TapeView<V>, output: int)
    requires
        0 <= output < t.nodes.len(),
        t.nodes.len() <= usize::MAX,
    ensures
        forall|k: int|
            #![trigger t.nodes[k]]
            0 <= k <= output && t.nodes[k].2 is Some ==> sweep(t, output).contains(
                Step { node: k as usize, parent: t.nodes[k].2->Some_0, weight: t.nodes[k].0 },
            ),
        forall|k: int|
            #![trigger t.nodes[k]]
            0 <= k <= output && t.nodes[k].3 is Some ==> sweep(t, output).contains(
                Step { node: k as usize, parent: t.nodes[k].3->Some_0, weight: t.nodes[k].1 },
            ),
    decreases output,
{
    lemma_sweep_from_output_down(t, output);
    let s = sweep(t, output);
    let n = t.nodes[output];
    let left = match n.2 {
        Some(p) => seq![Step { node: output as usize, parent: p, weight: n.0 }],
        None => Seq::<Step<V>>::empty(),
    };
    let right = match n.3 {
        Some(q) => seq![Step { node: output as usize, parent: q, weight: n.1 }],
        None => Seq::<Step<V>>::empty(),
    };
    let rest = if output == 0 {
        Seq::<Step<V>>::empty()
    } else {
        sweep(t, output - 1)
    };
    assert(s == left + right + rest);
    if output > 0 {
        lemma_sweep_covers_every_node(t, output - 1);
    }
    assert forall|k: int|
        #![trigger t.nodes[k]]
        0 <= k <= output && t.nodes[k].2 is Some implies s.contains(
            Step { node: k as usize, parent: t.nodes[k].2->Some_0, weight: t.nodes[k].0 },
        ) by {
        let st = Step { node: k as usize, parent: t.nodes[k].2->Some_0, weight: t.nodes[k].0 };
        if k == output {
            assert(s[0] == st);
        } else {
            let idx = choose|idx: int| 0 <= idx < rest.len() && rest[idx] == st;
            assert(s[left.len() + right.len() + idx] == st);
        }
    }
    assert forall|k: int|
        #![trigger t.nodes[k]]
        0 <= k <= output && t.nodes[k].3 is Some implies s.contains(
            Step { node: k as usize, parent: t.nodes[k].3->Some_0, weight: t.nodes[k].1 },
        ) by {
        let st = Step { node: k as usize, parent: t.nodes[k].3->Some_0, weight: t.nodes[k].1 };
        if k == output {
            assert(s[left.len() as int] == st);
        } else {
            let idx = choose|idx: int| 0 <= idx < rest.len() && rest[idx] == st;
            assert(s[left.len() + right.len() + idx] == st);
        }
    }
}

impl<V: Copy> Tape<V> {
    /// The accumulations that compute the adjoints with respect to the node at
    /// `output`: seed that adjoint with one, all others with zero, then apply
    /// the steps in order.
    pub fn adjoint_steps(&self, output: usize) -> (steps: Vec<Step<V>>)
        requires
            output < self@.nodes.len(),
        ensures
            steps@ == sweep(self@, output as int),
    {
        let mut steps: Vec<Step<V>> = Vec::new();
        // The tape's length fits in a usize, hence so does output + 1.
        let _len: usize = self.len();
        let mut i: usize = output + 1;
        while i > 0
            invariant
                i <= output + 1,
                output < self@.nodes.len(),
                steps@ == steps_between(self@.nodes, i as int, output + 1),
            decreases i,
        {
            i = i - 1;
            let node = self.node(i);
            let ghost before = steps@;
            match node.lhs_id() {
                Some(p) => steps.push(Step { node: i, parent: p, weight: node.lhs_der() }),
                None => {},
            }
            match node.rhs_id() {
                Some(q) => steps.push(Step { node: i, parent: q, weight: node.rhs_der() }),
                None => {},
            }
            assert(steps@ =~= before + node_steps(self@.nodes[i as int], i));
        }
        steps
    }
}

} // verus!
