//! Graph operations on a BPMN process: node lookup by id, successor and
//! predecessor traversal, and a check that every sequence flow connects
//! existing nodes.

use vstd::prelude::*;
use crate::bpmn::types::{FlowNode, FlowNodeModel, Process, ProcessModel, SequenceFlowModel};
use crate::text::concat5;

verus! {

/// The flow nodes of a process, in flow-element order.
pub open spec fn node_list(p: ProcessModel) -> Seq<FlowNodeModel> {
    p.elements().nodes()
}

/// Whether some node of `s` has id `x`.
pub open spec fn has_id(s: Seq<FlowNodeModel>, x: Seq<char>) -> bool {
    exists|i: int| 0 <= i < s.len() && (#[trigger] s[i]).id() == x
}

/// Whether `x` is the id of a flow node of `p`.
pub open spec fn is_node(p: ProcessModel, x: Seq<char>) -> bool {
    has_id(node_list(p), x)
}

/// The id-to-node index of a node sequence; for an id that occurs several
/// times, the last node with that id wins.
pub open spec fn index_by_id(s: Seq<FlowNodeModel>) -> Map<Seq<char>, FlowNodeModel>
    decreases s.len(),
{
    if s.len() == 0 {
        Map::empty()
    } else {
        index_by_id(s.drop_last()).insert(s.last().id(), s.last())
    }
}

/// The node that the graph holds for each id.
pub open spec fn node_index(p: ProcessModel) -> Map<Seq<char>, FlowNodeModel> {
    index_by_id(node_list(p))
}

/// The ids met by one step from `a`, one per matching flow of `flows`, in
/// flow order: targets of flows leaving `a` (forwards) or sources of flows
/// entering `a` (backwards), kept only when they are nodes.
pub open spec fn neighbours(
    p: ProcessModel,
    forward: bool,
    a: Seq<char>,
    flows: Seq<SequenceFlowModel>,
) -> Seq<Seq<char>>
    decreases flows.len(),
{
    if flows.len() == 0 {
        Seq::empty()
    } else {
        let rest = neighbours(p, forward, a, flows.drop_last());
        let f = flows.last();
        let (x, y) = if forward {
            (f.source_ref, f.target_ref)
        } else {
            (f.target_ref, f.source_ref)
        };
        if x == a && is_node(p, y) {
            rest.push(y)
        } else {
            rest
        }
    }
}

/// The error for a flow whose source is not a node.
pub open spec fn dangling_source_message(f: SequenceFlowModel) -> Seq<char> {
    "Sequence flow '"@ + f.id + "' has dangling sourceRef '"@ + f.source_ref + "'"@
}

/// The error for a flow whose target is not a node.
pub open spec fn dangling_target_message(f: SequenceFlowModel) -> Seq<char> {
    "Sequence flow '"@ + f.id + "' has dangling targetRef '"@ + f.target_ref + "'"@
}

/// Dangling-reference errors of `flows`, in flow order (source before target).
pub open spec fn dangling_errors(p: ProcessModel, flows: Seq<SequenceFlowModel>) -> Seq<Seq<char>>
    decreases flows.len(),
{
    if flows.len() == 0 {
        Seq::empty()
    } else {
        let f = flows.last();
        dangling_errors(p, flows.drop_last()) + (if is_node(p, f.source_ref) {
            Seq::<Seq<char>>::empty()
        } else {
            seq![dangling_source_message(f)]
        }) + (if is_node(p, f.target_ref) {
            Seq::<Seq<char>>::empty()
        } else {
            seq![dangling_target_message(f)]
        })
    }
}

proof fn lemma_index_last(s: Seq<FlowNodeModel>, k: int)
    requires
        0 <= k < s.len(),
        forall|j: int| k < j < s.len() ==> (#[trigger] s[j]).id() != s[k].id(),
    ensures
        index_by_id(s).dom().contains(s[k].id()),
        index_by_id(s)[s[k].id()] == s[k],
    decreases s.len(),
{
    if k < s.len() - 1 {
        let t = s.drop_last();
        assert(s[s.len() - 1].id() != s[k].id());
        assert forall|j: int| k < j < t.len() implies (#[trigger] t[j]).id() != t[k].id() by {
            assert(t[j] == s[j]);
        }
        lemma_index_last(t, k);
    }
}

proof fn lemma_index_absent(s: Seq<FlowNodeModel>, x: Seq<char>)
    requires
        !has_id(s, x),
    ensures
        !index_by_id(s).dom().contains(x),
    decreases s.len(),
{
    if s.len() > 0 {
        let t = s.drop_last();
        assert(s[s.len() - 1].id() != x);
        assert(!has_id(t, x)) by {
            if has_id(t, x) {
                let i = choose|i: int| 0 <= i < t.len() && (#[trigger] t[i]).id() == x;
                assert(s[i] == t[i]);
            }
        }
        lemma_index_absent(t, x);
    }
}

/// A read-only graph view over a BPMN process.
pub struct Graph<'a> {
    process: &'a Process,
    nodes: Vec<FlowNode>,
}

impl<'a> Graph<'a> {
    /// The process this graph views.
    pub closed spec fn model(&self) -> ProcessModel {
        self.process@
    }

    #[verifier::type_invariant]
    closed spec fn wf(&self) -> bool {
        self.nodes.deep_view() == node_list(self.process@)
    }

    /// Build a graph index from a process.
    pub fn new(process: &'a Process) -> (g: Self)
        ensures
            g.model() == process@,
    {
        let elements = process.flow_elements();
        let nodes = elements.nodes();
        Graph { process, nodes }
    }

    /// The position of the last node with id `id`, if any.
    fn find_last(&self, id: &str) -> (r: Option<usize>)
        ensures
            match r {
                Some(k) => k < node_list(self.model()).len() && node_list(self.model())[k as int]
                    == node_index(self.model())[id@] && node_index(self.model()).dom().contains(
                    id@,
                ),
                None => !node_index(self.model()).dom().contains(id@) && !is_node(
                    self.model(),
                    id@,
                ),
            },
    {
        proof {
            use_type_invariant(self);
        }
        let ghost s = node_list(self.model());
        let target = String::from_str(id);
        let mut k: usize = self.nodes.len();
        while k > 0
            invariant
                k <= self.nodes.len(),
                s == self.nodes.deep_view(),
                s == node_list(self.model()),
                target@ == id@,
                forall|j: int| k <= j < s.len() ==> (#[trigger] s[j]).id() != id@,
            decreases k,
        {
            k = k - 1;
            if self.nodes[k].id_string().eq(&target) {
                assert(s[k as int] == self.nodes[k as int]@);
                assert(s[k as int].id() == id@);
                proof {
                    lemma_index_last(s, k as int);
                }
                return Some(k);
            }
        }
        assert(!has_id(s, id@)) by {
            if has_id(s, id@) {
                let i = choose|i: int| 0 <= i < s.len() && (#[trigger] s[i]).id() == id@;
            }
        }
        proof {
            lemma_index_absent(s, id@);
        }
        None
    }

    /// Look up a flow node by id (the last node with that id).
    pub fn find_node(&self, id: &str) -> (r: Option<&FlowNode>)
        ensures
            match r {
                Some(n) => node_index(self.model()).dom().contains(id@) && n@ == node_index(
                    self.model(),
                )[id@],
                None => !node_index(self.model()).dom().contains(id@),
            },
    {
        proof {
            use_type_invariant(self);
        }
        match self.find_last(id) {
            Some(k) => Some(&self.nodes[k]),
            None => None,
        }
    }

    /// Nodes reached by one step in the given direction.
    fn adjacent(&self, node_id: &str, forward: bool) -> (r: Vec<&FlowNode>)
        ensures
            r.deep_view() == neighbours(
                self.model(),
                forward,
                node_id@,
                self.model().elements().sequence_flows,
            ).map_values(|x: Seq<char>| node_index(self.model())[x]),
    {
        proof {
            use_type_invariant(self);
        }
        let a = String::from_str(node_id);
        let flows = &self.process.sequence_flows;
        let ghost fl = flows.deep_view();
        let ghost p = self.model();
        let mut r: Vec<&FlowNode> = Vec::new();
        let mut i: usize = 0;
        while i < flows.len()
            invariant
                i <= flows.len(),
                fl == flows.deep_view(),
                fl == p.elements().sequence_flows,
                p == self.model(),
                a@ == node_id@,
                self.nodes.deep_view() == node_list(p),
                r.deep_view() == neighbours(p, forward, node_id@, fl.take(i as int)).map_values(
                    |x: Seq<char>| node_index(p)[x],
                ),
            decreases flows.len() - i,
        {
            let ghost pre = fl.take(i as int);
            let ghost post = fl.take(i + 1);
            assert(post.drop_last() =~= pre);
            assert(post.last() == fl[i as int]);
            let f = &flows[i];
            let (x, y) = if forward {
                (&f.source_ref, &f.target_ref)
            } else {
                (&f.target_ref, &f.source_ref)
            };
            let ghost before = r.deep_view();
            if x.eq(&a) {
                match self.find_last(y.as_str()) {
                    Some(k) => {
                        r.push(&self.nodes[k]);
                        assert(is_node(p, y@)) by {
                            assert(node_list(p)[k as int].id() == y@) by {
                                lemma_index_id(node_list(p), y@);
                            }
                        }
                        assert(r.deep_view() =~= before.push(node_index(p)[y@]));
                    },
                    None => {},
                }
            }
            assert(r.deep_view() =~= neighbours(p, forward, node_id@, post).map_values(
                |x: Seq<char>| node_index(p)[x],
            ));
            i = i + 1;
        }
        assert(fl.take(i as int) =~= fl);
        r
    }

    /// Successor nodes: one per sequence flow leaving `node_id` whose
    /// target is a node, in flow order.
    pub fn successors(&self, node_id: &str) -> (r: Vec<&FlowNode>)
        ensures
            r.deep_view() == neighbours(
                self.model(),
                true,
                node_id@,
                self.model().elements().sequence_flows,
            ).map_values(|x: Seq<char>| node_index(self.model())[x]),
    {
        self.adjacent(node_id, true)
    }

    /// Predecessor nodes: one per sequence flow entering `node_id` whose
    /// source is a node, in flow order.
    pub fn predecessors(&self, node_id: &str) -> (r: Vec<&FlowNode>)
        ensures
            r.deep_view() == neighbours(
                self.model(),
                false,
                node_id@,
                self.model().elements().sequence_flows,
            ).map_values(|x: Seq<char>| node_index(self.model())[x]),
    {
        self.adjacent(node_id, false)
    }

    /// Validate the graph structure: every sequence flow's sourceRef and
    /// targetRef name existing nodes. Returns all violations.
    pub fn validate(&self) -> (r: Result<(), Vec<String>>)
        ensures
            match r {
                Ok(()) => dangling_errors(self.model(), self.model().elements().sequence_flows).len()
                    == 0,
                Err(errors) => errors.len() > 0 && errors.deep_view() == dangling_errors(
                    self.model(),
                    self.model().elements().sequence_flows,
                ),
            },
    {
        let flows = &self.process.sequence_flows;
        let ghost fl = flows.deep_view();
        let ghost p = self.model();
        let mut errors: Vec<String> = Vec::new();
        let mut i: usize = 0;
        while i < flows.len()
            invariant
                i <= flows.len(),
                fl == flows.deep_view(),
                fl == p.elements().sequence_flows,
                p == self.model(),
                errors.deep_view() == dangling_errors(p, fl.take(i as int)),
            decreases flows.len() - i,
        {
            let ghost pre = fl.take(i as int);
            let ghost post = fl.take(i + 1);
            assert(post.drop_last() =~= pre);
            assert(post.last() == fl[i as int]);
            let f = &flows[i];
            assert(f@ == fl[i as int]);
            let src_ok = self.find_last(f.source_ref.as_str()).is_some();
            let tgt_ok = self.find_last(f.target_ref.as_str()).is_some();
            proof {
                lemma_index_dom(node_list(p));
            }
            let ghost s_part = if is_node(p, f.source_ref@) {
                Seq::<Seq<char>>::empty()
            } else {
                seq![dangling_source_message(f@)]
            };
            let ghost t_part = if is_node(p, f.target_ref@) {
                Seq::<Seq<char>>::empty()
            } else {
                seq![dangling_target_message(f@)]
            };
            assert(dangling_errors(p, post) == dangling_errors(p, pre) + s_part + t_part);
            let ghost before = errors.deep_view();
            if !src_ok {
                errors.push(concat5("Sequence flow '", f.id.as_str(), "' has dangling sourceRef '", f.source_ref.as_str(), "'"));
            }
            assert(errors.deep_view() =~= before + s_part);
            let ghost mid = errors.deep_view();
            if !tgt_ok {
                errors.push(concat5("Sequence flow '", f.id.as_str(), "' has dangling targetRef '", f.target_ref.as_str(), "'"));
            }
            assert(errors.deep_view() =~= mid + t_part);
            i = i + 1;
        }
        assert(fl.take(i as int) =~= fl);
        if errors.len() == 0 {
            Ok(())
        } else {
            Err(errors)
        }
    }
}

proof fn lemma_index_id(s: Seq<FlowNodeModel>, x: Seq<char>)
    requires
        index_by_id(s).dom().contains(x),
    ensures
        index_by_id(s)[x].id() == x,
    decreases s.len(),
{
    if s.len() > 0 && s.last().id() != x {
        lemma_index_id(s.drop_last(), x);
    }
}

proof fn lemma_index_dom(s: Seq<FlowNodeModel>)
    ensures
        forall|x: Seq<char>| index_by_id(s).dom().contains(x) <==> has_id(s, x),
    decreases s.len(),
{
    if s.len() > 0 {
        let t = s.drop_last();
        lemma_index_dom(t);
        assert forall|x: Seq<char>| index_by_id(s).dom().contains(x) <==> has_id(s, x) by {
            if has_id(s, x) {
                let i = choose|i: int| 0 <= i < s.len() && (#[trigger] s[i]).id() == x;
                if i < s.len() - 1 {
                    assert(t[i] == s[i]);
                }
            }
            if has_id(t, x) {
                let i = choose|i: int| 0 <= i < t.len() && (#[trigger] t[i]).id() == x;
                assert(s[i] == t[i]);
            }
        }
    }
}

/// The number of nodes of `s` with id `x`.
pub open spec fn count_with_id(s: Seq<FlowNodeModel>, x: Seq<char>) -> nat
    decreases s.len(),
{
    if s.len() == 0 {
        0
    } else {
        count_with_id(s.drop_last(), x) + if s.last().id() == x {
            1nat
        } else {
            0nat
        }
    }
}

/// The number of flows of `flows` from `a` to `b`.
pub open spec fn flow_count(flows: Seq<SequenceFlowModel>, a: Seq<char>, b: Seq<char>) -> nat
    decreases flows.len(),
{
    if flows.len() == 0 {
        0
    } else {
        flow_count(flows.drop_last(), a, b) + if flows.last().source_ref == a && flows.last().target_ref
            == b {
            1nat
        } else {
            0nat
        }
    }
}

proof fn lemma_count_neighbours(
    p: ProcessModel,
    forward: bool,
    a: Seq<char>,
    b: Seq<char>,
    flows: Seq<SequenceFlowModel>,
)
    requires
        is_node(p, b),
    ensures
        count_with_id(neighbours(p, forward, a, flows).map_values(|x: Seq<char>| node_index(p)[x]), b)
            == if forward {
            flow_count(flows, a, b)
        } else {
            flow_count(flows, b, a)
        },
    decreases flows.len(),
{
    if flows.len() > 0 {
        lemma_count_neighbours(p, forward, a, b, flows.drop_last());
        let rest = neighbours(p, forward, a, flows.drop_last());
        let f = flows.last();
        let x = if forward {
            f.source_ref
        } else {
            f.target_ref
        };
        let y = if forward {
            f.target_ref
        } else {
            f.source_ref
        };
        if x == a && is_node(p, y) {
            let m = rest.push(y).map_values(|x: Seq<char>| node_index(p)[x]);
            assert(m.drop_last() =~= rest.map_values(|x: Seq<char>| node_index(p)[x]));
            assert(m.last() == node_index(p)[y]);
            lemma_index_dom(node_list(p));
            lemma_index_id(node_list(p), y);
        }
    }
}

/// Between two nodes `a` and `b`, the successors of `a` with id `b`, the
/// predecessors of `b` with id `a`, and the sequence flows from `a` to `b`
/// are equally many.
pub proof fn law_successor_predecessor_count(p: ProcessModel, a: Seq<char>, b: Seq<char>)
    requires
        is_node(p, a),
        is_node(p, b),
    ensures
        count_with_id(
            neighbours(p, true, a, p.elements().sequence_flows).map_values(|x: Seq<char>| node_index(p)[x]),
            b,
        ) == flow_count(p.elements().sequence_flows, a, b),
        count_with_id(
            neighbours(p, false, b, p.elements().sequence_flows).map_values(|x: Seq<char>| node_index(p)[x]),
            a,
        ) == flow_count(p.elements().sequence_flows, a, b),
{
    lemma_count_neighbours(p, true, a, b, p.elements().sequence_flows);
    lemma_count_neighbours(p, false, b, a, p.elements().sequence_flows);
}

/// Whether `x` is the id of an element of one of the seven node lists of
/// `p`: start events, end events, tasks, service tasks, script tasks,
/// exclusive gateways, parallel gateways.
pub open spec fn is_element_id(p: ProcessModel, x: Seq<char>) -> bool {
    ||| exists|i: int| 0 <= i < p.start_events.len() && p.start_events[i].id == x
    ||| exists|i: int| 0 <= i < p.end_events.len() && p.end_events[i].id == x
    ||| exists|i: int| 0 <= i < p.tasks.len() && p.tasks[i].id == x
    ||| exists|i: int| 0 <= i < p.service_tasks.len() && p.service_tasks[i].id == x
    ||| exists|i: int| 0 <= i < p.script_tasks.len() && p.script_tasks[i].id == x
    ||| exists|i: int| 0 <= i < p.exclusive_gateways.len() && p.exclusive_gateways[i].id == x
    ||| exists|i: int| 0 <= i < p.parallel_gateways.len() && p.parallel_gateways[i].id == x
}

/// The graph's nodes are exactly the process's flow nodes: an id is a node
/// id if and only if some start event, end event, task, service task,
/// script task, exclusive gateway or parallel gateway of the process has
/// it.
pub proof fn law_nodes_are_the_flow_nodes(p: ProcessModel, x: Seq<char>)
    ensures
        is_node(p, x) <==> is_element_id(p, x),
{
    let n = node_list(p);
    let o0: int = 0;
    let o1: int = (p.start_events.len()) as int;
    let o2: int = (p.start_events.len() + p.end_events.len()) as int;
    let o3: int = (p.start_events.len() + p.end_events.len() + p.tasks.len()) as int;
    let o4: int = (p.start_events.len() + p.end_events.len() + p.tasks.len() + p.service_tasks.len()) as int;
    let o5: int = (p.start_events.len() + p.end_events.len() + p.tasks.len() + p.service_tasks.len() + p.script_tasks.len()) as int;
    let o6: int = (p.start_events.len() + p.end_events.len() + p.tasks.len() + p.service_tasks.len() + p.script_tasks.len() + p.exclusive_gateways.len()) as int;
    let o7: int = o6 + p.parallel_gateways.len();
    assert(n.len() == o7);
    if is_element_id(p, x) {
        if exists|i: int| 0 <= i < p.start_events.len() && p.start_events[i].id == x {
            let i = choose|i: int| 0 <= i < p.start_events.len() && p.start_events[i].id == x;
            assert(n[o0 + i] == FlowNodeModel::StartEvent(p.start_events[i]));
            assert(n[o0 + i].id() == x);
        }
        if exists|i: int| 0 <= i < p.end_events.len() && p.end_events[i].id == x {
            let i = choose|i: int| 0 <= i < p.end_events.len() && p.end_events[i].id == x;
            assert(n[o1 + i] == FlowNodeModel::EndEvent(p.end_events[i]));
            assert(n[o1 + i].id() == x);
        }
        if exists|i: int| 0 <= i < p.tasks.len() && p.tasks[i].id == x {
            let i = choose|i: int| 0 <= i < p.tasks.len() && p.tasks[i].id == x;
            assert(n[o2 + i] == FlowNodeModel::Task(p.tasks[i]));
            assert(n[o2 + i].id() == x);
        }
        if exists|i: int| 0 <= i < p.service_tasks.len() && p.service_tasks[i].id == x {
            let i = choose|i: int| 0 <= i < p.service_tasks.len() && p.service_tasks[i].id == x;
            assert(n[o3 + i] == FlowNodeModel::ServiceTask(p.service_tasks[i]));
            assert(n[o3 + i].id() == x);
        }
        if exists|i: int| 0 <= i < p.script_tasks.len() && p.script_tasks[i].id == x {
            let i = choose|i: int| 0 <= i < p.script_tasks.len() && p.script_tasks[i].id == x;
            assert(n[o4 + i] == FlowNodeModel::ScriptTask(p.script_tasks[i]));
            assert(n[o4 + i].id() == x);
        }
        if exists|i: int| 0 <= i < p.exclusive_gateways.len() && p.exclusive_gateways[i].id == x {
            let i = choose|i: int| 0 <= i < p.exclusive_gateways.len() && p.exclusive_gateways[i].id == x;
            assert(n[o5 + i] == FlowNodeModel::ExclusiveGateway(p.exclusive_gateways[i]));
            assert(n[o5 + i].id() == x);
        }
        if exists|i: int| 0 <= i < p.parallel_gateways.len() && p.parallel_gateways[i].id == x {
            let i = choose|i: int| 0 <= i < p.parallel_gateways.len() && p.parallel_gateways[i].id == x;
            assert(n[o6 + i] == FlowNodeModel::ParallelGateway(p.parallel_gateways[i]));
            assert(n[o6 + i].id() == x);
        }
    }
    if is_node(p, x) {
        let j = choose|j: int| 0 <= j < n.len() && (#[trigger] n[j]).id() == x;
        if j >= o6 {
            assert(n[j] == FlowNodeModel::ParallelGateway(p.parallel_gateways[j - o6]));
            assert(p.parallel_gateways[j - o6].id == x);
        } else if j >= o5 {
            assert(n[j] == FlowNodeModel::ExclusiveGateway(p.exclusive_gateways[j - o5]));
            assert(p.exclusive_gateways[j - o5].id == x);
        } else if j >= o4 {
            assert(n[j] == FlowNodeModel::ScriptTask(p.script_tasks[j - o4]));
            assert(p.script_tasks[j - o4].id == x);
        } else if j >= o3 {
            assert(n[j] == FlowNodeModel::ServiceTask(p.service_tasks[j - o3]));
            assert(p.service_tasks[j - o3].id == x);
        } else if j >= o2 {
            assert(n[j] == FlowNodeModel::Task(p.tasks[j - o2]));
            assert(p.tasks[j - o2].id == x);
        } else if j >= o1 {
            assert(n[j] == FlowNodeModel::EndEvent(p.end_events[j - o1]));
            assert(p.end_events[j - o1].id == x);
        } else {
            assert(n[j] == FlowNodeModel::StartEvent(p.start_events[j - o0]));
            assert(p.start_events[j - o0].id == x);
        }
    }
}

/// Dangling-reference errors of flows that all connect flow nodes: none.
proof fn lemma_no_dangling_between_nodes(p: ProcessModel, fl: Seq<SequenceFlowModel>)
    requires
        forall|i: int|
            0 <= i < fl.len() ==> is_element_id(p, #[trigger] fl[i].source_ref) && is_element_id(
                p,
                fl[i].target_ref,
            ),
    ensures
        dangling_errors(p, fl).len() == 0,
    decreases fl.len(),
{
    if fl.len() > 0 {
        let f = fl.last();
        assert(is_element_id(p, fl[fl.len() - 1].source_ref));
        law_nodes_are_the_flow_nodes(p, f.source_ref);
        law_nodes_are_the_flow_nodes(p, f.target_ref);
        assert forall|i: int| 0 <= i < fl.drop_last().len() implies is_element_id(
            p,
            #[trigger] fl.drop_last()[i].source_ref,
        ) && is_element_id(p, fl.drop_last()[i].target_ref) by {
            assert(fl.drop_last()[i] == fl[i]);
            assert(is_element_id(p, fl[i].source_ref));
        }
        lemma_no_dangling_between_nodes(p, fl.drop_last());
    }
}

/// A process whose every sequence flow connects two of its flow nodes (of
/// any of the seven kinds) has no dangling-reference error.
pub proof fn law_flows_between_flow_nodes_are_not_dangling(p: ProcessModel)
    requires
        forall|i: int|
            0 <= i < p.elements().sequence_flows.len() ==> is_element_id(p, #[trigger] p.elements().sequence_flows[i].source_ref)
                && is_element_id(p, p.elements().sequence_flows[i].target_ref),
    ensures
        dangling_errors(p, p.elements().sequence_flows).len() == 0,
{
    lemma_no_dangling_between_nodes(p, p.elements().sequence_flows);
}

} // verus!
