//! A read-only graph view over a domain [`Process`]: node lookup,
//! successor/predecessor traversal, reachability, and structural validation.

use vstd::prelude::*;
use crate::domain::bpmn::{
    EndEventModel, FlowNode, FlowNodeModel, Process, ProcessModel, SequenceFlowModel, StartEventModel,
};
use crate::text::{concat3, concat5, contains_string, lemma_push_contains, Duplicate};

verus! {

/// The flow nodes of a process, in flow-element order.
pub open spec fn node_list(p: ProcessModel) -> Seq<FlowNodeModel> {
    p.elements.nodes()
}

/// The ids of a node sequence, element by element.
pub open spec fn ids_of(s: Seq<FlowNodeModel>) -> Seq<Seq<char>> {
    s.map_values(|n: FlowNodeModel| n.id())
}

/// Whether some node of `s` has id `x`.
pub open spec fn has_id(s: Seq<FlowNodeModel>, x: Seq<char>) -> bool {
    exists|i: int| 0 <= i < s.len() && (#[trigger] s[i]).id() == x
}

/// Whether `x` is the id of a flow node of `p`.
pub open spec fn is_node(p: ProcessModel, x: Seq<char>) -> bool {
    has_id(node_list(p), x)
}

/// Node ids in order of first occurrence, each once.
pub open spec fn distinct_ids(s: Seq<FlowNodeModel>) -> Seq<Seq<char>>
    decreases s.len(),
{
    if s.len() == 0 {
        Seq::empty()
    } else {
        let d = distinct_ids(s.drop_last());
        if d.contains(s.last().id()) {
            d
        } else {
            d.push(s.last().id())
        }
    }
}

/// The id-to-node index of a node sequence: for an id that occurs several
/// times, the last node with that id wins.
pub open spec fn index_by_id(s: Seq<FlowNodeModel>) -> Map<Seq<char>, FlowNodeModel>
    decreases s.len(),
{
    if s.len() == 0 {
        Map::empty()
    } else {
        index_by_id(s.drop_last()).insert(s.last().id(), s.last())
    }
}

/// The distinct node ids of a process, in order of first occurrence.
pub open spec fn graph_ids(p: ProcessModel) -> Seq<Seq<char>> {
    distinct_ids(node_list(p))
}

/// The node that a process's graph holds for each id.
pub open spec fn node_index(p: ProcessModel) -> Map<Seq<char>, FlowNodeModel> {
    index_by_id(node_list(p))
}

/// Whether flow `f` links `a` to `b`, forwards (source to target) or
/// backwards (target to source).
pub open spec fn link(f: SequenceFlowModel, forward: bool, a: Seq<char>, b: Seq<char>) -> bool {
    if forward {
        f.source_ref == a && f.target_ref == b
    } else {
        f.target_ref == a && f.source_ref == b
    }
}

/// One traversal step from `a` to the node `b` along some sequence flow.
pub open spec fn step(p: ProcessModel, forward: bool, a: Seq<char>, b: Seq<char>) -> bool {
    &&& is_node(p, b)
    &&& exists|i: int|
        0 <= i < p.elements.sequence_flows.len() && link(
            #[trigger] p.elements.sequence_flows[i],
            forward,
            a,
            b,
        )
}

/// The `i`-th step of walk `w`.
pub open spec fn walk_step(p: ProcessModel, forward: bool, w: Seq<Seq<char>>, i: int) -> bool {
    step(p, forward, w[i], w[i + 1])
}

/// A non-empty sequence of ids each reached by one step from the previous.
pub open spec fn is_walk(p: ProcessModel, forward: bool, w: Seq<Seq<char>>) -> bool {
    &&& w.len() >= 1
    &&& forall|i: int| 0 <= i < w.len() - 1 ==> #[trigger] walk_step(p, forward, w, i)
}

/// `b` is reachable from `a` (each id reaches itself).
pub open spec fn reaches(p: ProcessModel, forward: bool, a: Seq<char>, b: Seq<char>) -> bool {
    exists|w: Seq<Seq<char>>| #[trigger] is_walk(p, forward, w) && w[0] == a && w.last() == b
}

/// The ids met by single steps from `a`, one per matching sequence flow of
/// `flows`, in flow order.
pub open spec fn neighbours(
    p: ProcessModel,
    forward: bool,
    a: Seq<char>,
    flows: Seq<SequenceFlowModel>,
) -> Seq<Seq<char>>
    decreases flows.len(),
{
    if flows.len() == 0 {
        Seq::empty()
    } else {
        let rest = neighbours(p, forward, a, flows.drop_last());
        let f = flows.last();
        let (x, y) = if forward {
            (f.source_ref, f.target_ref)
        } else {
            (f.target_ref, f.source_ref)
        };
        if x == a && is_node(p, y) {
            rest.push(y)
        } else {
            rest
        }
    }
}

/// The number of `true` entries.
pub open spec fn count_true(s: Seq<bool>) -> nat
    decreases s.len(),
{
    if s.len() == 0 {
        0
    } else {
        count_true(s.drop_last()) + if s.last() {
            1nat
        } else {
            0nat
        }
    }
}

proof fn lemma_count_true_bound(s: Seq<bool>)
    ensures
        count_true(s) <= s.len(),
    decreases s.len(),
{
    if s.len() > 0 {
        lemma_count_true_bound(s.drop_last());
    }
}

proof fn lemma_count_true_set(s: Seq<bool>, i: int)
    requires
        0 <= i < s.len(),
        !s[i],
    ensures
        count_true(s.update(i, true)) == count_true(s) + 1,
    decreases s.len(),
{
    let t = s.update(i, true);
    if i == s.len() - 1 {
        assert(t.drop_last() =~= s.drop_last());
    } else {
        assert(t.drop_last() =~= s.drop_last().update(i, true));
        lemma_count_true_set(s.drop_last(), i);
    }
}

proof fn lemma_has_id_push(t: Seq<FlowNodeModel>, n: FlowNodeModel)
    ensures
        forall|x: Seq<char>| has_id(t.push(n), x) <==> (has_id(t, x) || n.id() == x),
{
    let s = t.push(n);
    assert forall|x: Seq<char>| has_id(s, x) <==> (has_id(t, x) || n.id() == x) by {
        if has_id(s, x) {
            let i = choose|i: int| 0 <= i < s.len() && (#[trigger] s[i]).id() == x;
            if i < s.len() - 1 {
                assert(t[i] == s[i]);
            }
        }
        if has_id(t, x) {
            let i = choose|i: int| 0 <= i < t.len() && (#[trigger] t[i]).id() == x;
            assert(s[i] == t[i]);
        }
        if n.id() == x {
            assert(s[s.len() - 1].id() == x);
        }
    }
}

proof fn lemma_distinct_ids(s: Seq<FlowNodeModel>)
    ensures
        distinct_ids(s).no_duplicates(),
        forall|x: Seq<char>| distinct_ids(s).contains(x) <==> has_id(s, x),
    decreases s.len(),
{
    if s.len() == 0 {
        assert forall|x: Seq<char>| !has_id(s, x) by {}
    } else {
        let t = s.drop_last();
        lemma_distinct_ids(t);
        assert(s =~= t.push(s.last()));
        lemma_has_id_push(t, s.last());
        let d = distinct_ids(t);
        let y = s.last().id();
        assert(distinct_ids(s) == if d.contains(y) { d } else { d.push(y) });
        if d.contains(y) {
            assert forall|x: Seq<char>| distinct_ids(s).contains(x) <==> has_id(s, x) by {
                assert(has_id(t.push(s.last()), x) <==> (has_id(t, x) || y == x));
            }
        }
        if !d.contains(y) {
            let e = d.push(y);
            assert forall|x: Seq<char>| e.contains(x) <==> (d.contains(x) || y == x) by {
                if e.contains(x) {
                    let i = choose|i: int| 0 <= i < e.len() && e[i] == x;
                    if i < d.len() {
                        assert(d[i] == x);
                    }
                }
                if d.contains(x) {
                    let i = choose|i: int| 0 <= i < d.len() && d[i] == x;
                    assert(e[i] == x);
                }
                if y == x {
                    assert(e[e.len() - 1] == x);
                }
            }
            assert forall|x: Seq<char>| distinct_ids(s).contains(x) <==> has_id(s, x) by {
                assert(has_id(t.push(s.last()), x) <==> (has_id(t, x) || y == x));
            }
            assert forall|i: int, j: int| 0 <= i < e.len() && 0 <= j < e.len() && i != j implies e[i] != e[j] by {
                if i < d.len() && j < d.len() {
                } else if i < d.len() {
                    assert(d.contains(e[i]));
                } else if j < d.len() {
                    assert(d.contains(e[j]));
                }
            }
        }
    }
}

proof fn lemma_index_by_id(s: Seq<FlowNodeModel>)
    ensures
        forall|x: Seq<char>| index_by_id(s).dom().contains(x) <==> has_id(s, x),
    decreases s.len(),
{
    if s.len() == 0 {
        assert forall|x: Seq<char>| !has_id(s, x) by {}
    } else {
        let t = s.drop_last();
        lemma_index_by_id(t);
        assert(s =~= t.push(s.last()));
        lemma_has_id_push(t, s.last());
        assert(index_by_id(s) == index_by_id(t).insert(s.last().id(), s.last()));
        assert forall|x: Seq<char>| index_by_id(s).dom().contains(x) <==> has_id(s, x) by {
            assert(has_id(t.push(s.last()), x) <==> (has_id(t, x) || s.last().id() == x));
        }
    }
}

proof fn lemma_neighbours(p: ProcessModel, forward: bool, a: Seq<char>, fl: Seq<SequenceFlowModel>)
    ensures
        forall|b: Seq<char>|
            #[trigger] neighbours(p, forward, a, fl).contains(b) <==> (is_node(p, b) && exists|i: int|
                0 <= i < fl.len() && link(#[trigger] fl[i], forward, a, b)),
    decreases fl.len(),
{
    if fl.len() == 0 {
    } else {
        let t = fl.drop_last();
        lemma_neighbours(p, forward, a, t);
        let rest = neighbours(p, forward, a, t);
        let f = fl.last();
        assert forall|b: Seq<char>|
            neighbours(p, forward, a, fl).contains(b) <==> (is_node(p, b) && exists|i: int|
                0 <= i < fl.len() && link(#[trigger] fl[i], forward, a, b)) by {
            let n = neighbours(p, forward, a, fl);
            if n.contains(b) {
                let k = choose|k: int| 0 <= k < n.len() && n[k] == b;
                if k < rest.len() {
                    assert(rest[k] == b);
                    assert(rest.contains(b));
                    assert(neighbours(p, forward, a, t).contains(b));
                    assert(exists|i: int| 0 <= i < t.len() && link(#[trigger] t[i], forward, a, b));
                    let i = choose|i: int| 0 <= i < t.len() && link(#[trigger] t[i], forward, a, b);
                    assert(fl[i] == t[i]);
                } else {
                    assert(link(fl[fl.len() - 1], forward, a, b));
                }
            }
            if is_node(p, b) && exists|i: int| 0 <= i < fl.len() && link(#[trigger] fl[i], forward, a, b) {
                let i = choose|i: int| 0 <= i < fl.len() && link(#[trigger] fl[i], forward, a, b);
                if i < fl.len() - 1 {
                    assert(t[i] == fl[i]);
                    assert(rest.contains(b));
                    let k = choose|k: int| 0 <= k < rest.len() && rest[k] == b;
                    assert(n[k] == b);
                } else {
                    assert(n[n.len() - 1] == b);
                }
            }
        }
    }
}

/// Every id reaches itself.
pub proof fn lemma_reaches_self(p: ProcessModel, forward: bool, a: Seq<char>)
    ensures
        reaches(p, forward, a, a),
{
    let w = seq![a];
    assert(is_walk(p, forward, w));
}

/// Reachability extends by one step.
pub proof fn lemma_reaches_step(p: ProcessModel, forward: bool, a: Seq<char>, b: Seq<char>, c: Seq<char>)
    requires
        reaches(p, forward, a, b),
        step(p, forward, b, c),
    ensures
        reaches(p, forward, a, c),
{
    let w = choose|w: Seq<Seq<char>>| #[trigger] is_walk(p, forward, w) && w[0] == a && w.last() == b;
    let w2 = w.push(c);
    assert forall|i: int| 0 <= i < w2.len() - 1 implies #[trigger] walk_step(p, forward, w2, i) by {
        if i < w.len() - 1 {
            assert(walk_step(p, forward, w, i));
        }
    }
    assert(is_walk(p, forward, w2));
}

proof fn lemma_closed_walk(
    p: ProcessModel,
    forward: bool,
    start: Seq<char>,
    ids: Seq<Seq<char>>,
    flags: Seq<bool>,
    w: Seq<Seq<char>>,
)
    requires
        ids.len() == flags.len(),
        forall|x: Seq<char>| is_node(p, x) ==> ids.contains(x),
        forall|m: int|
            #![trigger step(p, forward, start, ids[m])]
            0 <= m < ids.len() && step(p, forward, start, ids[m]) ==> flags[m],
        forall|k: int, m: int|
            #![trigger step(p, forward, ids[k], ids[m])]
            0 <= k < ids.len() && 0 <= m < ids.len() && flags[k] && step(p, forward, ids[k], ids[m])
                ==> flags[m],
        is_walk(p, forward, w),
        w[0] == start,
        w.len() >= 2,
    ensures
        exists|m: int| 0 <= m < ids.len() && flags[m] && ids[m] == w.last(),
    decreases w.len(),
{
    let v = w.drop_last();
    let n = w.len();
    assert(walk_step(p, forward, w, n - 2));
    let b = w.last();
    assert(is_node(p, b));
    assert(ids.contains(b));
    let m = choose|m: int| 0 <= m < ids.len() && ids[m] == b;
    if v.len() == 1 {
        assert(step(p, forward, start, ids[m]));
    } else {
        assert forall|i: int| 0 <= i < v.len() - 1 implies #[trigger] walk_step(p, forward, v, i) by {
            assert(walk_step(p, forward, w, i));
        }
        lemma_closed_walk(p, forward, start, ids, flags, v);
        let k = choose|k: int| 0 <= k < ids.len() && flags[k] && ids[k] == v.last();
        assert(step(p, forward, ids[k], ids[m]));
    }
}

/// "Process has no start event".
pub open spec fn no_start_message() -> Seq<char> {
    "Process has no start event"@
}

/// "Process has no end event".
pub open spec fn no_end_message() -> Seq<char> {
    "Process has no end event"@
}

/// The error for a flow whose source is not a node.
pub open spec fn dangling_source_message(f: SequenceFlowModel) -> Seq<char> {
    "Sequence flow '"@ + f.id + "' has dangling sourceRef '"@ + f.source_ref + "'"@
}

/// The error for a flow whose target is not a node.
pub open spec fn dangling_target_message(f: SequenceFlowModel) -> Seq<char> {
    "Sequence flow '"@ + f.id + "' has dangling targetRef '"@ + f.target_ref + "'"@
}

/// The error for an id that occurs again.
pub open spec fn duplicate_message(id: Seq<char>) -> Seq<char> {
    "Duplicate element ID '"@ + id + "'"@
}

/// The error for a node that no start event reaches.
pub open spec fn unreachable_message(id: Seq<char>) -> Seq<char> {
    "Node '"@ + id + "' is unreachable from any start event"@
}

/// The error for a node that reaches no end event.
pub open spec fn dead_end_message(id: Seq<char>) -> Seq<char> {
    "Node '"@ + id + "' is a dead end (cannot reach any end event)"@
}

/// Dangling-reference errors of `flows`, in flow order (source before target).
pub open spec fn dangling_errors(p: ProcessModel, flows: Seq<SequenceFlowModel>) -> Seq<Seq<char>>
    decreases flows.len(),
{
    if flows.len() == 0 {
        Seq::empty()
    } else {
        let f = flows.last();
        dangling_errors(p, flows.drop_last()) + (if is_node(p, f.source_ref) {
            Seq::<Seq<char>>::empty()
        } else {
            seq![dangling_source_message(f)]
        }) + (if is_node(p, f.target_ref) {
            Seq::<Seq<char>>::empty()
        } else {
            seq![dangling_target_message(f)]
        })
    }
}

/// The ids of all flow nodes, then of all sequence flows.
pub open spec fn element_ids(p: ProcessModel) -> Seq<Seq<char>> {
    ids_of(node_list(p)) + p.elements.sequence_flows.map_values(|f: SequenceFlowModel| f.id)
}

/// One error for every id that already occurred earlier in `ids`.
pub open spec fn duplicate_errors(ids: Seq<Seq<char>>) -> Seq<Seq<char>>
    decreases ids.len(),
{
    if ids.len() == 0 {
        Seq::empty()
    } else {
        duplicate_errors(ids.drop_last()) + if ids.drop_last().contains(ids.last()) {
            seq![duplicate_message(ids.last())]
        } else {
            Seq::<Seq<char>>::empty()
        }
    }
}

/// Some start event reaches `x`.
pub open spec fn reachable_from_start(p: ProcessModel, x: Seq<char>) -> bool {
    exists|i: int|
        0 <= i < p.elements.start_events.len() && reaches(
            p,
            true,
            #[trigger] p.elements.start_events[i].id,
            x,
        )
}

/// `x` reaches some end event.
pub open spec fn reaches_end(p: ProcessModel, x: Seq<char>) -> bool {
    exists|i: int|
        0 <= i < p.elements.end_events.len() && reaches(p, false, #[trigger] p.elements.end_events[i].id, x)
}

/// One error for every id of `ids` that no start event reaches.
pub open spec fn unreachable_errors(p: ProcessModel, ids: Seq<Seq<char>>) -> Seq<Seq<char>>
    decreases ids.len(),
{
    if ids.len() == 0 {
        Seq::empty()
    } else {
        unreachable_errors(p, ids.drop_last()) + if reachable_from_start(p, ids.last()) {
            Seq::<Seq<char>>::empty()
        } else {
            seq![unreachable_message(ids.last())]
        }
    }
}

/// One error for every id of `ids` that reaches no end event.
pub open spec fn dead_end_errors(p: ProcessModel, ids: Seq<Seq<char>>) -> Seq<Seq<char>>
    decreases ids.len(),
{
    if ids.len() == 0 {
        Seq::empty()
    } else {
        dead_end_errors(p, ids.drop_last()) + if reaches_end(p, ids.last()) {
            Seq::<Seq<char>>::empty()
        } else {
            seq![dead_end_message(ids.last())]
        }
    }
}

/// All structural errors of a process, in the order they are reported:
/// missing start/end events, dangling references, duplicate ids, nodes not
/// reachable from a start event, and nodes that reach no end event (the
/// last two in the graph's node order).
pub open spec fn validation_errors(p: ProcessModel) -> Seq<Seq<char>> {
    (if p.elements.start_events.len() == 0 {
        seq![no_start_message()]
    } else {
        Seq::<Seq<char>>::empty()
    }) + (if p.elements.end_events.len() == 0 {
        seq![no_end_message()]
    } else {
        Seq::<Seq<char>>::empty()
    }) + dangling_errors(p, p.elements.sequence_flows) + duplicate_errors(element_ids(p))
        + unreachable_errors(p, graph_ids(p)) + dead_end_errors(p, graph_ids(p))
}

proof fn lemma_start_is_node(p: ProcessModel, i: int)
    requires
        0 <= i < p.elements.start_events.len(),
    ensures
        node_list(p)[i] == FlowNodeModel::StartEvent(p.elements.start_events[i]),
        is_node(p, p.elements.start_events[i].id),
{
    let e = p.elements;
    let a = e.start_events.map_values(|x: StartEventModel| FlowNodeModel::StartEvent(x));
    assert(a[i] == FlowNodeModel::StartEvent(e.start_events[i]));
    assert(node_list(p)[i] == a[i]);
    assert(node_list(p)[i].id() == e.start_events[i].id);
}

proof fn lemma_end_is_node(p: ProcessModel, i: int)
    requires
        0 <= i < p.elements.end_events.len(),
    ensures
        node_list(p)[p.elements.start_events.len() + i] == FlowNodeModel::EndEvent(
            p.elements.end_events[i],
        ),
        is_node(p, p.elements.end_events[i].id),
{
    let e = p.elements;
    let a = e.start_events.map_values(|x: StartEventModel| FlowNodeModel::StartEvent(x));
    let b = e.end_events.map_values(|x: EndEventModel| FlowNodeModel::EndEvent(x));
    let k = e.start_events.len() + i;
    assert((a + b)[k] == b[i]);
    assert(node_list(p)[k] == (a + b)[k]);
    assert(node_list(p)[k].id() == e.end_events[i].id);
}

/// The successors (or predecessors) of `a` are exactly the nodes one step
/// away from it.
pub proof fn lemma_neighbours_public(p: ProcessModel, forward: bool, a: Seq<char>)
    ensures
        forall|b: Seq<char>|
            #[trigger] neighbours(p, forward, a, p.elements.sequence_flows).contains(b) <==> step(
                p,
                forward,
                a,
                b,
            ),
{
    lemma_neighbours(p, forward, a, p.elements.sequence_flows);
}

/// The graph's ids are exactly the node ids, each once.
pub proof fn lemma_graph_ids_public(p: ProcessModel)
    ensures
        graph_ids(p).no_duplicates(),
        forall|x: Seq<char>| graph_ids(p).contains(x) <==> is_node(p, x),
{
    lemma_distinct_ids(node_list(p));
}

/// A read-only graph view over a process. It indexes the flow nodes by id
/// (the last node with a given id wins) in order of first occurrence.
pub struct Graph<'a> {
    process: &'a Process,
    nodes: Vec<FlowNode>,
}

impl<'a> Graph<'a> {
    /// The process this graph views.
    pub closed spec fn model(&self) -> ProcessModel {
        self.process@
    }

    /// The ids of the indexed nodes, in the graph's own order.
    pub closed spec fn ids(&self) -> Seq<Seq<char>> {
        ids_of(self.nodes.deep_view())
    }

    #[verifier::type_invariant]
    closed spec fn wf(&self) -> bool {
        &&& self.ids() == graph_ids(self.process@)
        &&& forall|k: int|
            0 <= k < self.nodes.len() ==> node_index(self.process@)[#[trigger] self.ids()[k]]
                == self.nodes.deep_view()[k]
    }

    proof fn lemma_ids(&self)
        requires
            self.wf(),
        ensures
            self.ids() == graph_ids(self.model()),
            self.ids().no_duplicates(),
            forall|x: Seq<char>| self.ids().contains(x) <==> is_node(self.model(), x),
            forall|x: Seq<char>|
                node_index(self.model()).dom().contains(x) <==> is_node(self.model(), x),
    {
        lemma_distinct_ids(node_list(self.model()));
        lemma_index_by_id(node_list(self.model()));
    }

    /// The position of the node with id `id`, if any.
    fn find_index(&self, id: &str) -> (r: Option<usize>)
        ensures
            match r {
                Some(k) => k < self.ids().len() && self.ids()[k as int] == id@,
                None => !is_node(self.model(), id@),
            },
    {
        proof {
            use_type_invariant(self);
            self.lemma_ids();
        }
        find_in(&self.nodes, id)
    }

    /// Look up a flow node by id.
    pub fn find_node(&self, id: &str) -> (r: Option<&FlowNode>)
        ensures
            match r {
                Some(n) => node_index(self.model()).dom().contains(id@) && n@ == node_index(
                    self.model(),
                )[id@],
                None => !node_index(self.model()).dom().contains(id@),
            },
    {
        proof {
            use_type_invariant(self);
            self.lemma_ids();
        }
        match find_in(&self.nodes, id) {
            Some(k) => {
                assert(self.ids()[k as int] == id@);
                assert(self.ids().contains(id@));
                Some(&self.nodes[k])
            },
            None => None,
        }
    }

    /// The positions of the nodes met by one step from `a`, one per
    /// matching sequence flow, in flow order.
    fn neighbour_indices(&self, a: &String, forward: bool) -> (r: Vec<usize>)
        ensures
            forall|j: int| 0 <= j < r.len() ==> r[j] < self.ids().len(),
            r@.map_values(|k: usize| self.ids()[k as int]) == neighbours(
                self.model(),
                forward,
                a@,
                self.model().elements.sequence_flows,
            ),
    {
        proof {
            use_type_invariant(self);
            self.lemma_ids();
        }
        let flows = &self.process.sequence_flows;
        let ghost fl = flows.deep_view();
        let mut r: Vec<usize> = Vec::new();
        let mut i: usize = 0;
        while i < flows.len()
            invariant
                i <= flows.len(),
                fl == flows.deep_view(),
                fl == self.model().elements.sequence_flows,
                self.ids() == graph_ids(self.model()),
                forall|x: Seq<char>| self.ids().contains(x) <==> is_node(self.model(), x),
                forall|j: int| 0 <= j < r.len() ==> r[j] < self.ids().len(),
                r@.map_values(|k: usize| self.ids()[k as int]) == neighbours(
                    self.model(),
                    forward,
                    a@,
                    fl.take(i as int),
                ),
            decreases flows.len() - i,
        {
            let ghost pre = fl.take(i as int);
            let ghost post = fl.take(i + 1);
            assert(post.drop_last() =~= pre);
            assert(post.last() == fl[i as int]);
            let f = &flows[i];
            let (x, y) = if forward {
                (&f.source_ref, &f.target_ref)
            } else {
                (&f.target_ref, &f.source_ref)
            };
            if x.eq(a) {
                let ghost before = r@;
                match find_in(&self.nodes, y.as_str()) {
                    Some(k) => {
                        r.push(k);
                        assert(self.ids()[k as int] == y@);
                        assert(self.ids().contains(y@));
                        assert(r@.map_values(|k: usize| self.ids()[k as int]) =~= before.map_values(
                            |k: usize| self.ids()[k as int],
                        ).push(y@));
                    },
                    None => {},
                }
            }
            i = i + 1;
        }
        assert(fl.take(i as int) =~= fl);
        r
    }

    /// Nodes reached along one step in the given direction.
    fn adjacent(&self, node_id: &str, forward: bool) -> (r: Vec<&FlowNode>)
        ensures
            r.deep_view() == neighbours(
                self.model(),
                forward,
                node_id@,
                self.model().elements.sequence_flows,
            ).map_values(|x: Seq<char>| node_index(self.model())[x]),
    {
        proof {
            use_type_invariant(self);
            self.lemma_ids();
        }
        let a = String::from_str(node_id);
        let idx = self.neighbour_indices(&a, forward);
        let ghost want = neighbours(
            self.model(),
            forward,
            node_id@,
            self.model().elements.sequence_flows,
        ).map_values(|x: Seq<char>| node_index(self.model())[x]);
        let mut r: Vec<&FlowNode> = Vec::new();
        let mut j: usize = 0;
        while j < idx.len()
            invariant
                j <= idx.len(),
                self.ids() == graph_ids(self.model()),
                forall|m: int| 0 <= m < idx.len() ==> idx[m] < self.ids().len(),
                forall|k: int|
                    0 <= k < self.nodes.len() ==> node_index(self.model())[#[trigger] self.ids()[k]]
                        == self.nodes.deep_view()[k],
                self.ids().len() == self.nodes.len(),
                idx@.map_values(|k: usize| self.ids()[k as int]).map_values(
                    |x: Seq<char>| node_index(self.model())[x],
                ) == want,
                r.deep_view() == want.take(j as int),
            decreases idx.len() - j,
        {
            let k = idx[j];
            let ghost before = r.deep_view();
            r.push(&self.nodes[k]);
            assert(self.nodes.deep_view()[k as int] == want[j as int]);
            assert(r.deep_view() =~= before.push(want[j as int]));
            j = j + 1;
            assert(r.deep_view() =~= want.take(j as int));
        }
        assert(want.take(j as int) =~= want);
        r
    }

    /// Nodes this node connects to via its outgoing sequence flows, one per
    /// flow whose target is a node, in flow order.
    pub fn successors(&self, node_id: &str) -> (r: Vec<&FlowNode>)
        ensures
            r.deep_view() == neighbours(
                self.model(),
                true,
                node_id@,
                self.model().elements.sequence_flows,
            ).map_values(|x: Seq<char>| node_index(self.model())[x]),
    {
        self.adjacent(node_id, true)
    }

    /// Nodes that connect to this node via its incoming sequence flows, one
    /// per flow whose source is a node, in flow order.
    pub fn predecessors(&self, node_id: &str) -> (r: Vec<&FlowNode>)
        ensures
            r.deep_view() == neighbours(
                self.model(),
                false,
                node_id@,
                self.model().elements.sequence_flows,
            ).map_values(|x: Seq<char>| node_index(self.model())[x]),
    {
        self.adjacent(node_id, false)
    }

    /// Flags the unflagged nodes one step from `from` and pushes them on
    /// the work stack.
    fn expand(
        &self,
        from: &String,
        forward: bool,
        flags: &mut Vec<bool>,
        stack: &mut Vec<usize>,
        Ghost(start): Ghost<Seq<char>>,
    )
        requires
            old(flags).len() == self.ids().len(),
            forall|j: int|
                0 <= j < old(stack).len() ==> old(stack)[j] < old(flags).len() && old(flags)[#[trigger] old(stack)[j] as int],
            old(stack)@.no_duplicates(),
            forall|k: int|
                0 <= k < old(flags).len() && #[trigger] old(flags)[k] ==> reaches(
                    self.model(),
                    forward,
                    start,
                    self.ids()[k],
                ),
            reaches(self.model(), forward, start, from@),
        ensures
            final(flags).len() == old(flags).len(),
            forall|k: int| 0 <= k < old(flags).len() && #[trigger] old(flags)[k] ==> final(flags)[k],
            forall|k: int|
                0 <= k < final(flags).len() && #[trigger] final(flags)[k] && !old(flags)[k]
                    ==> final(stack)@.contains(k as usize),
            final(stack)@.len() >= old(stack)@.len(),
            final(stack)@.take(old(stack)@.len() as int) == old(stack)@,
            forall|j: int|
                0 <= j < final(stack).len() ==> final(stack)[j] < final(flags).len() && final(flags)[#[trigger] final(stack)[j] as int],
            final(stack)@.no_duplicates(),
            forall|k: int|
                0 <= k < final(flags).len() && #[trigger] final(flags)[k] ==> reaches(
                    self.model(),
                    forward,
                    start,
                    self.ids()[k],
                ),
            forall|m: int|
                0 <= m < final(flags).len() && #[trigger] step(self.model(), forward, from@, self.ids()[m])
                    ==> final(flags)[m],
            2 * (final(flags).len() - count_true(final(flags)@)) + final(stack).len() <= 2 * (
            old(flags).len() - count_true(old(flags)@)) + old(stack).len(),
    {
        proof {
            use_type_invariant(self);
            self.lemma_ids();
            lemma_neighbours(self.model(), forward, from@, self.model().elements.sequence_flows);
        }
        let idx = self.neighbour_indices(from, forward);
        let ghost nb = neighbours(self.model(), forward, from@, self.model().elements.sequence_flows);
        let ghost ids = self.ids();
        let ghost flags0 = flags@;
        let ghost stack0 = stack@;
        let mut j: usize = 0;
        while j < idx.len()
            invariant
                j <= idx.len(),
                ids == self.ids(),
                ids.no_duplicates(),
                forall|x: Seq<char>| ids.contains(x) <==> is_node(self.model(), x),
                forall|b: Seq<char>|
                    #[trigger] nb.contains(b) <==> (is_node(self.model(), b) && exists|i: int|
                        0 <= i < self.model().elements.sequence_flows.len() && link(
                            #[trigger] self.model().elements.sequence_flows[i],
                            forward,
                            from@,
                            b,
                        )),
                forall|m: int| 0 <= m < idx.len() ==> idx[m] < ids.len(),
                idx@.map_values(|k: usize| ids[k as int]) == nb,
                reaches(self.model(), forward, start, from@),
                flags.len() == flags0.len(),
                flags0.len() == ids.len(),
                forall|k: int| 0 <= k < flags0.len() && #[trigger] flags0[k] ==> flags[k],
                forall|k: int|
                    0 <= k < flags.len() && #[trigger] flags[k] && !flags0[k] ==> stack@.contains(
                        k as usize,
                    ),
                stack@.len() >= stack0.len(),
                stack@.take(stack0.len() as int) == stack0,
                forall|i: int|
                    0 <= i < stack.len() ==> stack[i] < flags.len() && flags[#[trigger] stack[i] as int],
                stack@.no_duplicates(),
                forall|k: int|
                    0 <= k < flags.len() && #[trigger] flags[k] ==> reaches(
                        self.model(),
                        forward,
                        start,
                        ids[k],
                    ),
                forall|i: int| 0 <= i < j ==> flags[#[trigger] idx[i] as int],
                2 * (flags.len() - count_true(flags@)) + stack.len() <= 2 * (flags0.len() - count_true(flags0)) + stack0.len(),
            decreases idx.len() - j,
        {
            let m = idx[j];
            assert(nb[j as int] == ids[m as int]);
            assert(nb.contains(ids[m as int]));
            assert(step(self.model(), forward, from@, ids[m as int]));
            proof {
                lemma_reaches_step(self.model(), forward, start, from@, ids[m as int]);
            }
            if !flags[m] {
                let ghost fl_before = flags@;
                let ghost st_before = stack@;
                proof {
                    lemma_count_true_set(flags@, m as int);
                }
                flags.set(m, true);
                assert(flags@ == fl_before.update(m as int, true));
                stack.push(m);
                assert(stack@ == st_before.push(m));
                assert(stack@.take(stack0.len() as int) =~= st_before.take(stack0.len() as int));
                assert forall|i: int|
                    0 <= i < stack.len() implies stack[i] < flags.len() && flags[#[trigger] stack[i] as int] by {
                    if i < st_before.len() {
                        assert(st_before[i] == stack[i]);
                    }
                }
                assert forall|a: int, b: int| 0 <= a < stack.len() && 0 <= b < stack.len() && a != b implies stack[a] != stack[b] by {
                    if a < st_before.len() && b < st_before.len() {
                        assert(st_before[a] == stack[a] && st_before[b] == stack[b]);
                    } else if a < st_before.len() {
                        assert(fl_before[st_before[a] as int]);
                    } else if b < st_before.len() {
                        assert(fl_before[st_before[b] as int]);
                    }
                }
                assert forall|k: int|
                    0 <= k < flags.len() && #[trigger] flags[k] && !flags0[k] implies stack@.contains(k as usize) by {
                    if k == m as int {
                        assert(stack@[stack@.len() - 1] == m);
                    } else {
                        assert(st_before.contains(k as usize));
                        let i = choose|i: int| 0 <= i < st_before.len() && st_before[i] == k as usize;
                        assert(stack@[i] == k as usize);
                    }
                }
            }
            j = j + 1;
        }
        proof {
            assert forall|m: int|
                0 <= m < flags.len() && #[trigger] step(self.model(), forward, from@, ids[m]) implies flags[m] by {
                assert(nb.contains(ids[m]));
                let i = choose|i: int| 0 <= i < nb.len() && nb[i] == ids[m];
                assert(ids[idx[i] as int] == ids[m]);
                assert(flags[idx[i] as int]);
            }
        }
    }

    /// For each indexed node, whether it is reachable from `start` in the
    /// given direction.
    fn reach_flags(&self, start: &String, forward: bool) -> (flags: Vec<bool>)
        ensures
            flags.len() == self.ids().len(),
            forall|k: int|
                0 <= k < flags.len() ==> (#[trigger] flags[k] <==> reaches(
                    self.model(),
                    forward,
                    start@,
                    self.ids()[k],
                )),
    {
        proof {
            use_type_invariant(self);
            self.lemma_ids();
            lemma_reaches_self(self.model(), forward, start@);
        }
        let ghost ids = self.ids();
        let n = self.nodes.len();
        let mut flags: Vec<bool> = Vec::new();
        let mut i: usize = 0;
        while i < n
            invariant
                i <= n,
                n == ids.len(),
                flags.len() == i,
                forall|k: int| 0 <= k < i ==> !flags[k],
                count_true(flags@) == 0,
            decreases n - i,
        {
            let ghost before = flags@;
            flags.push(false);
            assert(flags@.drop_last() =~= before);
            i = i + 1;
        }
        let mut stack: Vec<usize> = Vec::new();
        let start_index = self.find_index(start.as_str());
        match start_index {
            Some(k0) => {
                proof {
                    lemma_count_true_set(flags@, k0 as int);
                }
                flags.set(k0, true);
            },
            None => {},
        }
        assert(stack@.no_duplicates());
        let ghost fl_init = flags@;
        self.expand(start, forward, &mut flags, &mut stack, Ghost(start@));
        proof {
            lemma_count_true_bound(flags@);
            assert forall|k: int| 0 <= k < ids.len() && ids[k] == start@ implies #[trigger] flags[k] by {
                match start_index {
                    Some(k0) => {
                        assert(ids[k0 as int] == start@);
                        assert(k == k0 as int);
                        assert(fl_init[k]);
                    },
                    None => {
                        assert(ids.contains(ids[k]));
                    },
                }
            }
        }
        while stack.len() > 0
            invariant
                ids == self.ids(),
                ids.no_duplicates(),
                forall|x: Seq<char>| ids.contains(x) <==> is_node(self.model(), x),
                flags.len() == ids.len(),
                count_true(flags@) <= flags.len(),
                forall|j: int|
                    0 <= j < stack.len() ==> stack[j] < flags.len() && flags[#[trigger] stack[j] as int],
                stack@.no_duplicates(),
                forall|k: int|
                    0 <= k < flags.len() && #[trigger] flags[k] ==> reaches(
                        self.model(),
                        forward,
                        start@,
                        ids[k],
                    ),
                reaches(self.model(), forward, start@, start@),
                forall|m: int|
                    #![trigger step(self.model(), forward, start@, ids[m])]
                    0 <= m < ids.len() && step(self.model(), forward, start@, ids[m]) ==> flags[m],
                forall|k: int, m: int|
                    #![trigger step(self.model(), forward, ids[k], ids[m])]
                    0 <= k < ids.len() && 0 <= m < ids.len() && flags[k] && !stack@.contains(
                        k as usize,
                    ) && step(self.model(), forward, ids[k], ids[m]) ==> flags[m],
                forall|k: int| 0 <= k < ids.len() && ids[k] == start@ ==> #[trigger] flags[k],
            decreases 2 * (flags.len() - count_true(flags@)) + stack.len(),
        {
            let ghost fl0 = flags@;
            let ghost st_full = stack@;
            let k = stack.pop().unwrap();
            let ghost st0 = stack@;
            assert(st_full == st0.push(k));
            assert(!st0.contains(k)) by {
                if st0.contains(k) {
                    let i = choose|i: int| 0 <= i < st0.len() && st0[i] == k;
                    assert(st_full[i] == st_full[st_full.len() - 1]);
                }
            }
            assert(flags[k as int]);
            let from = self.nodes[k].id_string();
            assert(from@ == ids[k as int]);
            self.expand(from, forward, &mut flags, &mut stack, Ghost(start@));
            proof {
                lemma_count_true_bound(flags@);
                assert forall|k2: int| 0 <= k2 < ids.len() && ids[k2] == start@ implies #[trigger] flags[k2] by {
                    assert(fl0[k2]);
                }
                assert forall|k2: int, m: int|
                    0 <= k2 < ids.len() && 0 <= m < ids.len() && flags[k2] && !stack@.contains(k2 as usize)
                        && #[trigger] step(self.model(), forward, ids[k2], ids[m]) implies flags[m] by {
                    if k2 != k as int {
                        if !fl0[k2] {
                            assert(stack@.contains(k2 as usize));
                        }
                        if st_full.contains(k2 as usize) {
                            let i = choose|i: int| 0 <= i < st_full.len() && st_full[i] == k2 as usize;
                            assert(i < st0.len());
                            assert(st0[i] == k2 as usize);
                            assert(stack@.take(st0.len() as int)[i] == k2 as usize);
                            assert(stack@[i] == k2 as usize);
                        }
                        assert(fl0[m]);
                    }
                }
            }
        }
        proof {
            assert forall|k: int|
                0 <= k < flags.len() implies (#[trigger] flags[k] <==> reaches(
                    self.model(),
                    forward,
                    start@,
                    ids[k],
                )) by {
                if reaches(self.model(), forward, start@, ids[k]) {
                    let w = choose|w: Seq<Seq<char>>|
                        #[trigger] is_walk(self.model(), forward, w) && w[0] == start@ && w.last() == ids[k];
                    if w.len() >= 2 {
                        lemma_closed_walk(self.model(), forward, start@, ids, flags@, w);
                        let m = choose|m: int| 0 <= m < ids.len() && flags[m] && ids[m] == w.last();
                        assert(m == k);
                    }
                }
            }
        }
        flags
    }

    /// All ids reachable from `node_id` along outgoing sequence flows,
    /// `node_id` itself included, each once.
    pub fn reachable_from(&self, node_id: &str) -> (r: Vec<String>)
        ensures
            r.deep_view().no_duplicates(),
            forall|x: Seq<char>|
                #[trigger] r.deep_view().contains(x) <==> reaches(self.model(), true, node_id@, x),
    {
        proof {
            use_type_invariant(self);
            self.lemma_ids();
        }
        let start = String::from_str(node_id);
        let flags = self.reach_flags(&start, true);
        let ghost ids = self.ids();
        let mut r: Vec<String> = Vec::new();
        let start_index = self.find_index(node_id);
        if start_index.is_none() {
            r.push(start.clone());
        }
        let ghost base = r.deep_view();
        let mut k: usize = 0;
        while k < self.nodes.len()
            invariant
                k <= self.nodes.len(),
                ids == self.ids(),
                ids.len() == self.nodes.len(),
                ids.no_duplicates(),
                forall|x: Seq<char>| ids.contains(x) <==> is_node(self.model(), x),
                flags.len() == ids.len(),
                forall|m: int|
                    0 <= m < flags.len() ==> (#[trigger] flags[m] <==> reaches(
                        self.model(),
                        true,
                        node_id@,
                        ids[m],
                    )),
                start_index.is_none() ==> !is_node(self.model(), node_id@),
                start_index.is_none() ==> base == seq![node_id@],
                start_index.is_some() ==> base == Seq::<Seq<char>>::empty(),
                r.deep_view().no_duplicates(),
                forall|x: Seq<char>|
                    #[trigger] r.deep_view().contains(x) <==> (base.contains(x) || exists|m: int|
                        0 <= m < k && flags[m] && ids[m] == x),
            decreases self.nodes.len() - k,
        {
            if flags[k] {
                let ghost before = r.deep_view();
                let id = self.nodes[k].id_string().clone();
                assert(id@ == ids[k as int]);
                r.push(id);
                assert(r.deep_view() =~= before.push(ids[k as int]));
                assert(!before.contains(ids[k as int])) by {
                    if before.contains(ids[k as int]) {
                        if base.contains(ids[k as int]) {
                            assert(is_node(self.model(), ids[k as int])) by {
                                assert(ids.contains(ids[k as int]));
                            }
                        } else {
                            let m = choose|m: int| 0 <= m < k && flags[m] && ids[m] == ids[k as int];
                        }
                    }
                }
                assert forall|x: Seq<char>|
                    #[trigger] r.deep_view().contains(x) <==> (base.contains(x) || exists|m: int|
                        0 <= m < k + 1 && flags[m] && ids[m] == x) by {
                    if r.deep_view().contains(x) {
                        let i = choose|i: int| 0 <= i < r.deep_view().len() && r.deep_view()[i] == x;
                        if i < before.len() {
                            assert(before.contains(x));
                        }
                    }
                    if exists|m: int| 0 <= m < k + 1 && flags[m] && ids[m] == x {
                        let m = choose|m: int| 0 <= m < k + 1 && flags[m] && ids[m] == x;
                        if m < k {
                            assert(before.contains(x));
                            let i = choose|i: int| 0 <= i < before.len() && before[i] == x;
                            assert(r.deep_view()[i] == x);
                        } else {
                            assert(r.deep_view()[r.deep_view().len() - 1] == x);
                        }
                    }
                    if base.contains(x) {
                        assert(before.contains(x));
                        let i = choose|i: int| 0 <= i < before.len() && before[i] == x;
                        assert(r.deep_view()[i] == x);
                    }
                }
            }
            k = k + 1;
        }
        proof {
            lemma_reaches_self(self.model(), true, node_id@);
            assert forall|x: Seq<char>|
                #[trigger] r.deep_view().contains(x) <==> reaches(self.model(), true, node_id@, x) by {
                if reaches(self.model(), true, node_id@, x) {
                    let w = choose|w: Seq<Seq<char>>|
                        #[trigger] is_walk(self.model(), true, w) && w[0] == node_id@ && w.last() == x;
                    if w.len() >= 2 {
                        assert(walk_step(self.model(), true, w, w.len() - 2));
                        assert(is_node(self.model(), x));
                        assert(ids.contains(x));
                        let m = choose|m: int| 0 <= m < ids.len() && ids[m] == x;
                        assert(flags[m]);
                    } else {
                        if start_index.is_none() {
                            assert(base[0] == x);
                            assert(base.contains(x));
                        } else {
                            let k0 = start_index.unwrap();
                            assert(ids[k0 as int] == x);
                            assert(flags[k0 as int]);
                        }
                    }
                }
                if base.contains(x) {
                    assert(x == node_id@);
                }
            }
        }
        r
    }

    /// The graph's node for each start event, in start-event order.
    pub fn entry_nodes(&self) -> (r: Vec<&FlowNode>)
        ensures
            r.deep_view() == self.model().elements.start_events.map_values(
                |e: StartEventModel| node_index(self.model())[e.id],
            ),
    {
        proof {
            use_type_invariant(self);
            self.lemma_ids();
        }
        let events = &self.process.start_events;
        let ghost want = self.model().elements.start_events.map_values(
            |e: StartEventModel| node_index(self.model())[e.id],
        );
        let mut r: Vec<&FlowNode> = Vec::new();
        let mut i: usize = 0;
        while i < events.len()
            invariant
                i <= events.len(),
                events.deep_view() == self.model().elements.start_events,
                want == self.model().elements.start_events.map_values(
                    |e: StartEventModel| node_index(self.model())[e.id],
                ),
                forall|x: Seq<char>| self.ids().contains(x) <==> is_node(self.model(), x),
                forall|k: int|
                    0 <= k < self.nodes.len() ==> node_index(self.model())[#[trigger] self.ids()[k]]
                        == self.nodes.deep_view()[k],
                r.deep_view() == want.take(i as int),
            decreases events.len() - i,
        {
            proof {
                lemma_start_is_node(self.model(), i as int);
            }
            match find_in(&self.nodes, events[i].id.as_str()) {
                Some(k) => {
                    let ghost before = r.deep_view();
                    r.push(&self.nodes[k]);
                    assert(self.ids()[k as int] == events.deep_view()[i as int].id);
                    assert(node_index(self.model())[self.ids()[k as int]] == self.nodes.deep_view()[k as int]);
                    assert(want[i as int] == node_index(self.model())[events.deep_view()[i as int].id]);
                    assert(r.deep_view() =~= before.push(want[i as int]));
                },
                None => {
                    assert(self.ids().contains(events.deep_view()[i as int].id));
                },
            }
            i = i + 1;
            assert(r.deep_view() =~= want.take(i as int));
        }
        assert(want.take(i as int) =~= want);
        r
    }

    /// The graph's node for each end event, in end-event order.
    pub fn exit_nodes(&self) -> (r: Vec<&FlowNode>)
        ensures
            r.deep_view() == self.model().elements.end_events.map_values(
                |e: EndEventModel| node_index(self.model())[e.id],
            ),
    {
        proof {
            use_type_invariant(self);
            self.lemma_ids();
        }
        let events = &self.process.end_events;
        let ghost want = self.model().elements.end_events.map_values(
            |e: EndEventModel| node_index(self.model())[e.id],
        );
        let mut r: Vec<&FlowNode> = Vec::new();
        let mut i: usize = 0;
        while i < events.len()
            invariant
                i <= events.len(),
                events.deep_view() == self.model().elements.end_events,
                want == self.model().elements.end_events.map_values(
                    |e: EndEventModel| node_index(self.model())[e.id],
                ),
                forall|x: Seq<char>| self.ids().contains(x) <==> is_node(self.model(), x),
                forall|k: int|
                    0 <= k < self.nodes.len() ==> node_index(self.model())[#[trigger] self.ids()[k]]
                        == self.nodes.deep_view()[k],
                r.deep_view() == want.take(i as int),
            decreases events.len() - i,
        {
            proof {
                lemma_end_is_node(self.model(), i as int);
            }
            match find_in(&self.nodes, events[i].id.as_str()) {
                Some(k) => {
                    let ghost before = r.deep_view();
                    r.push(&self.nodes[k]);
                    assert(self.ids()[k as int] == events.deep_view()[i as int].id);
                    assert(node_index(self.model())[self.ids()[k as int]] == self.nodes.deep_view()[k as int]);
                    assert(want[i as int] == node_index(self.model())[events.deep_view()[i as int].id]);
                    assert(r.deep_view() =~= before.push(want[i as int]));
                },
                None => {
                    assert(self.ids().contains(events.deep_view()[i as int].id));
                },
            }
            i = i + 1;
            assert(r.deep_view() =~= want.take(i as int));
        }
        assert(want.take(i as int) =~= want);
        r
    }

    /// For each indexed node, whether some id of `roots` reaches it.
    fn reach_any(&self, roots: &Vec<String>, forward: bool) -> (flags: Vec<bool>)
        ensures
            flags.len() == self.ids().len(),
            forall|k: int|
                0 <= k < flags.len() ==> (#[trigger] flags[k] <==> exists|i: int|
                    0 <= i < roots.len() && reaches(
                        self.model(),
                        forward,
                        #[trigger] roots.deep_view()[i],
                        self.ids()[k],
                    )),
    {
        proof {
            use_type_invariant(self);
            self.lemma_ids();
        }
        let n = self.nodes.len();
        let mut flags: Vec<bool> = Vec::new();
        let mut k: usize = 0;
        while k < n
            invariant
                k <= n,
                flags.len() == k,
                forall|m: int| 0 <= m < k ==> !flags[m],
            decreases n - k,
        {
            flags.push(false);
            k = k + 1;
        }
        let mut i: usize = 0;
        while i < roots.len()
            invariant
                i <= roots.len(),
                n == self.ids().len(),
                flags.len() == n,
                forall|k: int|
                    0 <= k < flags.len() ==> (#[trigger] flags[k] <==> exists|j: int|
                        0 <= j < i && reaches(
                            self.model(),
                            forward,
                            #[trigger] roots.deep_view()[j],
                            self.ids()[k],
                        )),
            decreases roots.len() - i,
        {
            let one = self.reach_flags(&roots[i], forward);
            assert(roots[i as int]@ == roots.deep_view()[i as int]);
            let ghost before = flags@;
            let mut k: usize = 0;
            while k < n
                invariant
                    k <= n,
                    n == self.ids().len(),
                    one.len() == n,
                    flags.len() == n,
                    forall|m: int|
                        0 <= m < n ==> (#[trigger] one[m] <==> reaches(
                            self.model(),
                            forward,
                            roots.deep_view()[i as int],
                            self.ids()[m],
                        )),
                    forall|m: int| 0 <= m < n ==> #[trigger] flags[m] == if m < k {
                        before[m] || one[m]
                    } else {
                        before[m]
                    },
                decreases n - k,
            {
                if one[k] {
                    flags.set(k, true);
                }
                k = k + 1;
            }
            assert forall|m: int|
                0 <= m < flags.len() implies (#[trigger] flags[m] <==> exists|j: int|
                    0 <= j < i + 1 && reaches(
                        self.model(),
                        forward,
                        #[trigger] roots.deep_view()[j],
                        self.ids()[m],
                    )) by {
                if flags[m] && !before[m] {
                    assert(one[m]);
                }
                if exists|j: int|
                    0 <= j < i + 1 && reaches(
                        self.model(),
                        forward,
                        #[trigger] roots.deep_view()[j],
                        self.ids()[m],
                    ) {
                    let j = choose|j: int|
                        0 <= j < i + 1 && reaches(
                            self.model(),
                            forward,
                            #[trigger] roots.deep_view()[j],
                            self.ids()[m],
                        );
                    if j == i as int {
                        assert(one[m]);
                    }
                }
            }
            i = i + 1;
        }
        flags
    }

    /// Whether `id` is the id of a node.
    fn is_node_id(&self, id: &str) -> (r: bool)
        ensures
            r == is_node(self.model(), id@),
    {
        proof {
            use_type_invariant(self);
            self.lemma_ids();
        }
        match self.find_index(id) {
            Some(k) => {
                assert(self.ids().contains(id@));
                true
            },
            None => false,
        }
    }

    /// Appends the dangling-reference errors, in flow order.
    fn push_dangling_errors(&self, errors: &mut Vec<String>)
        ensures
            final(errors).deep_view() == old(errors).deep_view() + dangling_errors(
                self.model(),
                self.model().elements.sequence_flows,
            ),
    {
        let flows = &self.process.sequence_flows;
        let ghost fl = flows.deep_view();
        let ghost base = errors.deep_view();
        let mut i: usize = 0;
        while i < flows.len()
            invariant
                i <= flows.len(),
                fl == flows.deep_view(),
                fl == self.model().elements.sequence_flows,
                errors.deep_view() == base + dangling_errors(self.model(), fl.take(i as int)),
            decreases flows.len() - i,
        {
            let ghost pre = fl.take(i as int);
            let ghost post = fl.take(i + 1);
            assert(post.drop_last() =~= pre);
            assert(post.last() == fl[i as int]);
            let f = &flows[i];
            let ghost before = errors.deep_view();
            let src_ok = self.is_node_id(f.source_ref.as_str());
            let tgt_ok = self.is_node_id(f.target_ref.as_str());
            assert(f@ == fl[i as int]);
            let ghost s_part = if is_node(self.model(), f.source_ref@) {
                Seq::<Seq<char>>::empty()
            } else {
                seq![dangling_source_message(f@)]
            };
            let ghost t_part = if is_node(self.model(), f.target_ref@) {
                Seq::<Seq<char>>::empty()
            } else {
                seq![dangling_target_message(f@)]
            };
            assert(dangling_errors(self.model(), post) == dangling_errors(self.model(), pre) + s_part + t_part);
            if !src_ok {
                let m = concat5("Sequence flow '", f.id.as_str(), "' has dangling sourceRef '", f.source_ref.as_str(), "'");
                errors.push(m);
            }
            assert(errors.deep_view() =~= before + s_part);
            let ghost mid = errors.deep_view();
            if !tgt_ok {
                let m = concat5("Sequence flow '", f.id.as_str(), "' has dangling targetRef '", f.target_ref.as_str(), "'");
                errors.push(m);
            }
            assert(errors.deep_view() =~= mid + t_part);
            assert(errors.deep_view() =~= base + dangling_errors(self.model(), post));
            i = i + 1;
        }
        assert(fl.take(i as int) =~= fl);
    }

    /// The ids of all flow nodes, then of all sequence flows.
    fn all_element_ids(&self) -> (r: Vec<String>)
        ensures
            r.deep_view() == element_ids(self.model()),
    {
        let elements = self.process.flow_elements();
        let all = elements.nodes();
        let ghost ns = all.deep_view();
        let mut r: Vec<String> = Vec::new();
        let mut i: usize = 0;
        while i < all.len()
            invariant
                i <= all.len(),
                ns == all.deep_view(),
                r.deep_view() == ids_of(ns.take(i as int)),
            decreases all.len() - i,
        {
            let ghost before = r.deep_view();
            let c = all[i].id_string().clone();
            assert(c@ == ns[i as int].id());
            r.push(c);
            assert(r.deep_view() =~= before.push(ns[i as int].id()));
            assert(ns.take(i + 1) =~= ns.take(i as int).push(ns[i as int]));
            i = i + 1;
            assert(r.deep_view() =~= ids_of(ns.take(i as int)));
        }
        assert(ns.take(i as int) =~= ns);
        let flows = &self.process.sequence_flows;
        let ghost fl = flows.deep_view();
        let ghost base = r.deep_view();
        let mut j: usize = 0;
        while j < flows.len()
            invariant
                j <= flows.len(),
                fl == flows.deep_view(),
                r.deep_view() == base + fl.take(j as int).map_values(|f: SequenceFlowModel| f.id),
            decreases flows.len() - j,
        {
            let ghost before = r.deep_view();
            let c = flows[j].id.clone();
            assert(c@ == fl[j as int].id);
            r.push(c);
            assert(r.deep_view() =~= before.push(fl[j as int].id));
            assert(fl.take(j + 1) =~= fl.take(j as int).push(fl[j as int]));
            j = j + 1;
            assert(r.deep_view() =~= base + fl.take(j as int).map_values(|f: SequenceFlowModel| f.id));
        }
        assert(fl.take(j as int) =~= fl);
        r
    }

    /// Appends one error for every element id that occurred before.
    fn push_duplicate_errors(&self, errors: &mut Vec<String>)
        ensures
            final(errors).deep_view() == old(errors).deep_view() + duplicate_errors(
                element_ids(self.model()),
            ),
    {
        let ids = self.all_element_ids();
        let ghost all = ids.deep_view();
        let ghost base = errors.deep_view();
        let mut seen: Vec<String> = Vec::new();
        let mut i: usize = 0;
        while i < ids.len()
            invariant
                i <= ids.len(),
                all == ids.deep_view(),
                all == element_ids(self.model()),
                forall|x: Seq<char>| seen.deep_view().contains(x) <==> all.take(i as int).contains(x),
                errors.deep_view() == base + duplicate_errors(all.take(i as int)),
            decreases ids.len() - i,
        {
            let ghost pre = all.take(i as int);
            let ghost post = all.take(i + 1);
            assert(post.drop_last() =~= pre);
            assert(post.last() == all[i as int]);
            let id = &ids[i];
            assert(id@ == all[i as int]);
            let ghost before_seen = seen.deep_view();
            let ghost before_err = errors.deep_view();
            let ghost d_part = if pre.contains(all[i as int]) {
                seq![duplicate_message(all[i as int])]
            } else {
                Seq::<Seq<char>>::empty()
            };
            assert(duplicate_errors(post) == duplicate_errors(pre) + d_part);
            let dup = contains_string(&seen, id);
            if dup {
                let m = concat3("Duplicate element ID '", id.as_str(), "'");
                errors.push(m);
                assert(errors.deep_view() =~= before_err.push(duplicate_message(all[i as int])));
            } else {
                seen.push(id.clone());
                assert(seen.deep_view() =~= before_seen.push(id@));
            }
            assert(post =~= pre.push(id@));
            proof {
                lemma_push_contains(pre, id@);
                lemma_push_contains(before_seen, id@);
            }
            assert(errors.deep_view() =~= base + duplicate_errors(post));
            assert forall|x: Seq<char>| seen.deep_view().contains(x) <==> post.contains(x) by {
                if post.contains(x) {
                    let k = choose|k: int| 0 <= k < post.len() && post[k] == x;
                    if k < pre.len() {
                        assert(pre[k] == x);
                        assert(pre.contains(x));
                    }
                }
                if pre.contains(x) {
                    let k = choose|k: int| 0 <= k < pre.len() && pre[k] == x;
                    assert(post[k] == x);
                }
                if seen.deep_view().contains(x) && !before_seen.contains(x) {
                    assert(x == id@);
                    assert(post[i as int] == x);
                }
                if before_seen.contains(x) {
                    let k = choose|k: int| 0 <= k < before_seen.len() && before_seen[k] == x;
                    assert(seen.deep_view()[k] == x);
                }
            }
            i = i + 1;
        }
        assert(all.take(i as int) =~= all);
    }

    /// The ids of the start (or end) events.
    fn event_ids(&self, starts: bool) -> (r: Vec<String>)
        ensures
            starts ==> r.deep_view() == self.model().elements.start_events.map_values(
                |e: StartEventModel| e.id,
            ),
            !starts ==> r.deep_view() == self.model().elements.end_events.map_values(
                |e: EndEventModel| e.id,
            ),
    {
        let mut r: Vec<String> = Vec::new();
        if starts {
            let events = &self.process.start_events;
            let mut i: usize = 0;
            while i < events.len()
                invariant
                    i <= events.len(),
                    r.deep_view() == events.deep_view().take(i as int).map_values(|e: StartEventModel| e.id),
                decreases events.len() - i,
            {
                let ghost before = r.deep_view();
                let c = events[i].id.clone();
                assert(c@ == events.deep_view()[i as int].id);
                r.push(c);
                assert(r.deep_view() =~= before.push(events.deep_view()[i as int].id));
                assert(events.deep_view().take(i + 1) =~= events.deep_view().take(i as int).push(events.deep_view()[i as int]));
                i = i + 1;
                assert(r.deep_view() =~= events.deep_view().take(i as int).map_values(|e: StartEventModel| e.id));
            }
            assert(events.deep_view().take(i as int) =~= events.deep_view());
        } else {
            let events = &self.process.end_events;
            let mut i: usize = 0;
            while i < events.len()
                invariant
                    i <= events.len(),
                    r.deep_view() == events.deep_view().take(i as int).map_values(|e: EndEventModel| e.id),
                decreases events.len() - i,
            {
                let ghost before = r.deep_view();
                let c = events[i].id.clone();
                assert(c@ == events.deep_view()[i as int].id);
                r.push(c);
                assert(r.deep_view() =~= before.push(events.deep_view()[i as int].id));
                assert(events.deep_view().take(i + 1) =~= events.deep_view().take(i as int).push(events.deep_view()[i as int]));
                i = i + 1;
                assert(r.deep_view() =~= events.deep_view().take(i as int).map_values(|e: EndEventModel| e.id));
            }
            assert(events.deep_view().take(i as int) =~= events.deep_view());
        }
        r
    }

    /// Appends one error for every node that no start event reaches, and
    /// then one for every node that reaches no end event, in node order.
    fn push_reachability_errors(&self, errors: &mut Vec<String>)
        ensures
            final(errors).deep_view() == old(errors).deep_view() + unreachable_errors(
                self.model(),
                graph_ids(self.model()),
            ) + dead_end_errors(self.model(), graph_ids(self.model())),
    {
        proof {
            use_type_invariant(self);
            self.lemma_ids();
        }
        let ghost p = self.model();
        let ghost ids = self.ids();
        let starts = self.event_ids(true);
        let ends = self.event_ids(false);
        assert(starts.deep_view() == p.elements.start_events.map_values(|e: StartEventModel| e.id));
        assert(ends.deep_view() == p.elements.end_events.map_values(|e: EndEventModel| e.id));
        let from_start = self.reach_any(&starts, true);
        let to_end = self.reach_any(&ends, false);
        assert forall|k: int| 0 <= k < ids.len() implies (#[trigger] from_start[k] <==> reachable_from_start(p, ids[k])) by {
            if from_start[k] {
                let i = choose|i: int| 0 <= i < starts.len() && reaches(p, true, #[trigger] starts.deep_view()[i], ids[k]);
                assert(starts.deep_view().len() == starts.len());
                assert(starts.deep_view().len() == p.elements.start_events.len());
                assert(starts.deep_view()[i] == p.elements.start_events[i].id);
                assert(reaches(p, true, p.elements.start_events[i].id, ids[k]));
            }
            if reachable_from_start(p, ids[k]) {
                let i = choose|i: int| 0 <= i < p.elements.start_events.len() && reaches(p, true, #[trigger] p.elements.start_events[i].id, ids[k]);
                assert(starts.deep_view().len() == starts.len());
                assert(starts.deep_view()[i] == p.elements.start_events[i].id);
                assert(reaches(self.model(), true, starts.deep_view()[i], self.ids()[k]));
            }
        }
        assert forall|k: int| 0 <= k < ids.len() implies (#[trigger] to_end[k] <==> reaches_end(p, ids[k])) by {
            if to_end[k] {
                let i = choose|i: int| 0 <= i < ends.len() && reaches(p, false, #[trigger] ends.deep_view()[i], ids[k]);
                assert(ends.deep_view().len() == ends.len());
                assert(ends.deep_view()[i] == p.elements.end_events[i].id);
                assert(reaches(p, false, p.elements.end_events[i].id, ids[k]));
            }
            if reaches_end(p, ids[k]) {
                let i = choose|i: int| 0 <= i < p.elements.end_events.len() && reaches(p, false, #[trigger] p.elements.end_events[i].id, ids[k]);
                assert(ends.deep_view().len() == ends.len());
                assert(ends.deep_view()[i] == p.elements.end_events[i].id);
                assert(reaches(self.model(), false, ends.deep_view()[i], self.ids()[k]));
            }
        }
        let ghost base = errors.deep_view();
        let n = self.nodes.len();
        let mut k: usize = 0;
        while k < n
            invariant
                k <= n,
                n == ids.len(),
                ids == self.ids(),
                p == self.model(),
                from_start.len() == n,
                forall|m: int| 0 <= m < n ==> (#[trigger] from_start[m] <==> reachable_from_start(p, ids[m])),
                errors.deep_view() == base + unreachable_errors(p, ids.take(k as int)),
            decreases n - k,
        {
            let ghost post = ids.take(k + 1);
            assert(post.drop_last() =~= ids.take(k as int));
            assert(post.last() == ids[k as int]);
            let ghost before = errors.deep_view();
            if !from_start[k] {
                let id = self.nodes[k].id_string();
                assert(id@ == ids[k as int]);
                let m = concat3("Node '", id.as_str(), "' is unreachable from any start event");
                errors.push(m);
                assert(errors.deep_view() =~= before.push(unreachable_message(ids[k as int])));
            }
            assert(errors.deep_view() =~= base + unreachable_errors(p, post));
            k = k + 1;
        }
        assert(ids.take(n as int) =~= ids);
        let ghost base2 = errors.deep_view();
        let mut k: usize = 0;
        while k < n
            invariant
                k <= n,
                n == ids.len(),
                ids == self.ids(),
                p == self.model(),
                to_end.len() == n,
                forall|m: int| 0 <= m < n ==> (#[trigger] to_end[m] <==> reaches_end(p, ids[m])),
                errors.deep_view() == base2 + dead_end_errors(p, ids.take(k as int)),
            decreases n - k,
        {
            let ghost post = ids.take(k + 1);
            assert(post.drop_last() =~= ids.take(k as int));
            assert(post.last() == ids[k as int]);
            let ghost before = errors.deep_view();
            if !to_end[k] {
                let id = self.nodes[k].id_string();
                assert(id@ == ids[k as int]);
                let m = concat3("Node '", id.as_str(), "' is a dead end (cannot reach any end event)");
                errors.push(m);
                assert(errors.deep_view() =~= before.push(dead_end_message(ids[k as int])));
            }
            assert(errors.deep_view() =~= base2 + dead_end_errors(p, post));
            k = k + 1;
        }
        assert(ids.take(n as int) =~= ids);
        assert(errors.deep_view() =~= base + unreachable_errors(p, ids) + dead_end_errors(p, ids));
    }

    /// Validate the structure of the process graph: it has a start and an
    /// end event, no sequence flow references a missing node, no id occurs
    /// twice, every node is reachable from a start event, and every node
    /// reaches an end event. Returns every violation found.
    pub fn validate(&self) -> (r: Result<(), Vec<String>>)
        ensures
            match r {
                Ok(()) => validation_errors(self.model()).len() == 0,
                Err(errors) => errors.len() > 0 && errors.deep_view() == validation_errors(self.model()),
            },
    {
        let mut errors: Vec<String> = Vec::new();
        if self.process.start_events.len() == 0 {
            errors.push(String::from_str("Process has no start event"));
        }
        if self.process.end_events.len() == 0 {
            errors.push(String::from_str("Process has no end event"));
        }
        let ghost head = errors.deep_view();
        assert(head =~= (if self.model().elements.start_events.len() == 0 {
            seq![no_start_message()]
        } else {
            Seq::<Seq<char>>::empty()
        }) + (if self.model().elements.end_events.len() == 0 {
            seq![no_end_message()]
        } else {
            Seq::<Seq<char>>::empty()
        }));
        self.push_dangling_errors(&mut errors);
        self.push_duplicate_errors(&mut errors);
        self.push_reachability_errors(&mut errors);
        assert(errors.deep_view() =~= validation_errors(self.model()));
        if errors.len() == 0 {
            Ok(())
        } else {
            Err(errors)
        }
    }

    /// Build the graph index of a process.
    pub fn new(process: &'a Process) -> (g: Self)
        ensures
            g.model() == process@,
    {
        let flow_elements = process.flow_elements();
        let all = flow_elements.nodes();
        let ghost s = all.deep_view();
        assert(s == node_list(process@));
        let mut nodes: Vec<FlowNode> = Vec::new();
        let mut i: usize = 0;
        while i < all.len()
            invariant
                i <= all.len(),
                s == all.deep_view(),
                ids_of(nodes.deep_view()) == distinct_ids(
                    s.take(i as int),
                ),
                forall|k: int|
                    0 <= k < nodes.len() ==> index_by_id(s.take(i as int))[#[trigger] ids_of(nodes.deep_view())[k]] == nodes.deep_view()[k],
            decreases all.len() - i,
        {
            let ghost pre = s.take(i as int);
            let ghost post = s.take(i + 1);
            let ghost old_nodes = nodes.deep_view();
            let ghost old_ids = ids_of(old_nodes);
            proof {
                assert(post.drop_last() =~= pre);
                assert(post.last() == s[i as int]);
                lemma_distinct_ids(pre);
            }
            let n = all[i].duplicate();
            assert(n@ == s[i as int]);
            let found = find_in(&nodes, n.id());
            match found {
                Some(k) => {
                    nodes.set(k, n);
                    assert(nodes.deep_view() =~= old_nodes.update(k as int, s[i as int]));
                    assert(ids_of(nodes.deep_view()) =~= old_ids);
                    assert(old_ids[k as int] == s[i as int].id());
                    assert(old_ids.contains(s[i as int].id()));
                    assert(distinct_ids(post) == distinct_ids(pre));
                    assert(index_by_id(post) == index_by_id(pre).insert(s[i as int].id(), s[i as int]));
                    assert forall|k2: int| 0 <= k2 < nodes.len() implies index_by_id(post)[#[trigger] ids_of(nodes.deep_view())[k2]] == nodes.deep_view()[k2] by {
                        if k2 != k {
                            assert(old_ids[k2] != old_ids[k as int]);
                        }
                    }
                },
                None => {
                    nodes.push(n);
                    assert(nodes.deep_view() =~= old_nodes.push(s[i as int]));
                    assert(ids_of(nodes.deep_view()) =~= old_ids.push(s[i as int].id()));
                    assert(distinct_ids(post) == distinct_ids(pre).push(s[i as int].id()));
                    assert(index_by_id(post) == index_by_id(pre).insert(s[i as int].id(), s[i as int]));
                    assert forall|k2: int| 0 <= k2 < nodes.len() implies index_by_id(post)[#[trigger] ids_of(nodes.deep_view())[k2]] == nodes.deep_view()[k2] by {
                        if k2 < old_nodes.len() {
                            assert(old_ids.contains(old_ids[k2]));
                        }
                    }
                },
            }
            i = i + 1;
        }
        assert(s.take(i as int) =~= s);
        Graph { process, nodes }
    }
}

/// The position of the node with id `id` in `nodes`, if any.
fn find_in(nodes: &Vec<FlowNode>, id: &str) -> (r: Option<usize>)
    ensures
        match r {
            Some(k) => k < nodes.len() && nodes.deep_view()[k as int].id() == id@,
            None => !ids_of(nodes.deep_view()).contains(id@),
        },
{
    let target = String::from_str(id);
    let mut k: usize = 0;
    while k < nodes.len()
        invariant
            k <= nodes.len(),
            target@ == id@,
            forall|j: int| 0 <= j < k ==> nodes.deep_view()[j].id() != id@,
        decreases nodes.len() - k,
    {
        if nodes[k].id_string().eq(&target) {
            return Some(k);
        }
        k = k + 1;
    }
    proof {
        let ids = ids_of(nodes.deep_view());
        if ids.contains(id@) {
            let j = choose|j: int| 0 <= j < ids.len() && ids[j] == id@;
            assert(nodes.deep_view()[j].id() == id@);
        }
    }
    None
}

proof fn lemma_index_id(s: Seq<FlowNodeModel>, x: Seq<char>)
    requires
        index_by_id(s).dom().contains(x),
    ensures
        index_by_id(s)[x].id() == x,
    decreases s.len(),
{
    if s.len() > 0 && s.last().id() != x {
        lemma_index_id(s.drop_last(), x);
    }
}

/// The number of nodes of `s` with id `x`.
pub open spec fn count_with_id(s: Seq<FlowNodeModel>, x: Seq<char>) -> nat
    decreases s.len(),
{
    if s.len() == 0 {
        0
    } else {
        count_with_id(s.drop_last(), x) + if s.last().id() == x {
            1nat
        } else {
            0nat
        }
    }
}

/// The number of flows of `flows` from `a` to `b`.
pub open spec fn flow_count(flows: Seq<SequenceFlowModel>, a: Seq<char>, b: Seq<char>) -> nat
    decreases flows.len(),
{
    if flows.len() == 0 {
        0
    } else {
        flow_count(flows.drop_last(), a, b) + if flows.last().source_ref == a && flows.last().target_ref
            == b {
            1nat
        } else {
            0nat
        }
    }
}

proof fn lemma_count_neighbours(
    p: ProcessModel,
    forward: bool,
    a: Seq<char>,
    b: Seq<char>,
    flows: Seq<SequenceFlowModel>,
)
    requires
        is_node(p, b),
    ensures
        count_with_id(neighbours(p, forward, a, flows).map_values(|x: Seq<char>| node_index(p)[x]), b)
            == if forward {
            flow_count(flows, a, b)
        } else {
            flow_count(flows, b, a)
        },
    decreases flows.len(),
{
    if flows.len() > 0 {
        lemma_count_neighbours(p, forward, a, b, flows.drop_last());
        let rest = neighbours(p, forward, a, flows.drop_last());
        let f = flows.last();
        let x = if forward {
            f.source_ref
        } else {
            f.target_ref
        };
        let y = if forward {
            f.target_ref
        } else {
            f.source_ref
        };
        if x == a && is_node(p, y) {
            let m = rest.push(y).map_values(|x: Seq<char>| node_index(p)[x]);
            assert(m.drop_last() =~= rest.map_values(|x: Seq<char>| node_index(p)[x]));
            assert(m.last() == node_index(p)[y]);
            lemma_index_by_id(node_list(p));
            lemma_index_id(node_list(p), y);
        }
    }
}

/// Between two nodes `a` and `b`, the successors of `a` with id `b`, the
/// predecessors of `b` with id `a`, and the sequence flows from `a` to `b`
/// are equally many.
pub proof fn law_successor_predecessor_count(p: ProcessModel, a: Seq<char>, b: Seq<char>)
    requires
        is_node(p, a),
        is_node(p, b),
    ensures
        count_with_id(
            neighbours(p, true, a, p.elements.sequence_flows).map_values(|x: Seq<char>| node_index(p)[x]),
            b,
        ) == flow_count(p.elements.sequence_flows, a, b),
        count_with_id(
            neighbours(p, false, b, p.elements.sequence_flows).map_values(|x: Seq<char>| node_index(p)[x]),
            a,
        ) == flow_count(p.elements.sequence_flows, a, b),
{
    lemma_count_neighbours(p, true, a, b, p.elements.sequence_flows);
    lemma_count_neighbours(p, false, b, a, p.elements.sequence_flows);
}

} // verus!
