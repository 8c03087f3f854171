//! Properties that relate the graph operations to each other.

use vstd::prelude::*;
use crate::domain::bpmn::{FlowNodeModel, ProcessModel, SequenceFlowModel};
use crate::domain::process_graph::{
    dangling_errors, dead_end_errors, node_list, duplicate_errors, element_ids, graph_ids, is_node,
    is_walk, lemma_reaches_self, lemma_reaches_step, link, neighbours, reachable_from_start,
    reaches, reaches_end, step, unreachable_errors, validation_errors, walk_step,
};

verus! {

/// Every id is among the ids reachable from it.
pub proof fn law_start_is_reachable(p: ProcessModel, id: Seq<char>)
    ensures
        reaches(p, true, id, id),
{
    lemma_reaches_self(p, true, id);
}

/// The ids reachable from `a` are closed under taking successors: if `b`
/// is reachable from `a` and `c` is a successor of `b`, then `c` is
/// reachable from `a`.
pub proof fn law_reachable_closed_under_successors(
    p: ProcessModel,
    a: Seq<char>,
    b: Seq<char>,
    c: Seq<char>,
)
    requires
        reaches(p, true, a, b),
        neighbours(p, true, b, p.elements.sequence_flows).contains(c),
    ensures
        reaches(p, true, a, c),
{
    crate::domain::process_graph::lemma_neighbours_public(p, true, b);
    lemma_reaches_step(p, true, a, b, c);
}

/// Between two nodes, `b` is a successor of `a` exactly when `a` is a
/// predecessor of `b`.
pub proof fn law_successor_predecessor_duality(p: ProcessModel, a: Seq<char>, b: Seq<char>)
    requires
        is_node(p, a),
        is_node(p, b),
    ensures
        neighbours(p, true, a, p.elements.sequence_flows).contains(b) <==> neighbours(
            p,
            false,
            b,
            p.elements.sequence_flows,
        ).contains(a),
{
    crate::domain::process_graph::lemma_neighbours_public(p, true, a);
    crate::domain::process_graph::lemma_neighbours_public(p, false, b);
    let fl = p.elements.sequence_flows;
    if neighbours(p, true, a, fl).contains(b) {
        let i = choose|i: int| 0 <= i < fl.len() && link(#[trigger] fl[i], true, a, b);
        assert(link(fl[i], false, b, a));
    }
    if neighbours(p, false, b, fl).contains(a) {
        let i = choose|i: int| 0 <= i < fl.len() && link(#[trigger] fl[i], false, b, a);
        assert(link(fl[i], true, a, b));
    }
}

proof fn lemma_reverse_walk(p: ProcessModel, w: Seq<Seq<char>>)
    requires
        is_walk(p, false, w),
        is_node(p, w[0]),
    ensures
        is_walk(p, true, w.reverse()),
{
    let r = w.reverse();
    let n = w.len();
    assert forall|i: int| 0 <= i < r.len() - 1 implies #[trigger] walk_step(p, true, r, i) by {
        let j = n - 2 - i;
        assert(walk_step(p, false, w, j));
        assert(r[i] == w[j + 1]);
        assert(r[i + 1] == w[j]);
        let fl = p.elements.sequence_flows;
        let k = choose|k: int| 0 <= k < fl.len() && link(#[trigger] fl[k], false, w[j], w[j + 1]);
        assert(link(fl[k], true, r[i], r[i + 1]));
        if j == 0 {
            assert(is_node(p, r[i + 1]));
        } else {
            assert(walk_step(p, false, w, j - 1));
        }
    }
}

/// Between two nodes, walking backwards from `a` to `b` is walking forwards
/// from `b` to `a`: the dead-end check (backwards from the end events)
/// finds exactly the nodes that reach an end event.
pub proof fn law_backward_reach_is_forward_reach(p: ProcessModel, a: Seq<char>, b: Seq<char>)
    requires
        is_node(p, a),
        is_node(p, b),
    ensures
        reaches(p, false, a, b) <==> reaches(p, true, b, a),
{
    if reaches(p, false, a, b) {
        let w = choose|w: Seq<Seq<char>>| #[trigger] is_walk(p, false, w) && w[0] == a && w.last() == b;
        lemma_reverse_walk(p, w);
        assert(is_walk(p, true, w.reverse()));
        assert(w.reverse()[0] == b);
        assert(w.reverse().last() == a);
    }
    if reaches(p, true, b, a) {
        let w = choose|w: Seq<Seq<char>>| #[trigger] is_walk(p, true, w) && w[0] == b && w.last() == a;
        let r = w.reverse();
        let n = w.len();
        assert forall|i: int| 0 <= i < r.len() - 1 implies #[trigger] walk_step(p, false, r, i) by {
            let j = n - 2 - i;
            assert(walk_step(p, true, w, j));
            assert(r[i] == w[j + 1]);
            assert(r[i + 1] == w[j]);
            let fl = p.elements.sequence_flows;
            let k = choose|k: int| 0 <= k < fl.len() && link(#[trigger] fl[k], true, w[j], w[j + 1]);
            assert(link(fl[k], false, r[i], r[i + 1]));
            if j == 0 {
                assert(is_node(p, r[i + 1]));
            } else {
                assert(walk_step(p, true, w, j - 1));
            }
        }
        assert(is_walk(p, false, r));
        assert(r[0] == a);
        assert(r.last() == b);
    }
}

/// A process that passes validation has a start and an end event, every
/// sequence flow connects two nodes, no element id occurs twice, every node
/// is reachable from a start event, and every node reaches an end event.
pub proof fn law_valid_process(p: ProcessModel)
    requires
        validation_errors(p).len() == 0,
    ensures
        p.elements.start_events.len() > 0,
        p.elements.end_events.len() > 0,
        forall|i: int|
            0 <= i < p.elements.sequence_flows.len() ==> is_node(
                p,
                #[trigger] p.elements.sequence_flows[i].source_ref,
            ) && is_node(p, p.elements.sequence_flows[i].target_ref),
        element_ids(p).no_duplicates(),
        forall|x: Seq<char>| is_node(p, x) ==> reachable_from_start(p, x) && reaches_end(p, x),
{
    let fl = p.elements.sequence_flows;
    assert(dangling_errors(p, fl).len() == 0);
    assert(duplicate_errors(element_ids(p)).len() == 0);
    assert(unreachable_errors(p, graph_ids(p)).len() == 0);
    assert(dead_end_errors(p, graph_ids(p)).len() == 0);
    lemma_no_dangling(p, fl);
    lemma_no_duplicates(element_ids(p));
    lemma_no_unreachable(p, graph_ids(p));
    lemma_no_dead_end(p, graph_ids(p));
    crate::domain::process_graph::lemma_graph_ids_public(p);
}

proof fn lemma_no_dangling(p: ProcessModel, fl: Seq<crate::domain::bpmn::SequenceFlowModel>)
    requires
        dangling_errors(p, fl).len() == 0,
    ensures
        forall|i: int|
            0 <= i < fl.len() ==> is_node(p, #[trigger] fl[i].source_ref) && is_node(
                p,
                fl[i].target_ref,
            ),
    decreases fl.len(),
{
    if fl.len() > 0 {
        lemma_no_dangling(p, fl.drop_last());
        assert forall|i: int| 0 <= i < fl.len() implies is_node(p, #[trigger] fl[i].source_ref) && is_node(p, fl[i].target_ref) by {
            if i < fl.len() - 1 {
                assert(fl.drop_last()[i] == fl[i]);
            }
        }
    }
}

proof fn lemma_no_duplicates(ids: Seq<Seq<char>>)
    requires
        duplicate_errors(ids).len() == 0,
    ensures
        ids.no_duplicates(),
    decreases ids.len(),
{
    if ids.len() > 0 {
        let t = ids.drop_last();
        lemma_no_duplicates(t);
        assert(!t.contains(ids.last()));
        assert forall|i: int, j: int| 0 <= i < ids.len() && 0 <= j < ids.len() && i != j implies ids[i] != ids[j] by {
            if i < t.len() && j < t.len() {
                assert(t[i] == ids[i] && t[j] == ids[j]);
            } else if i < t.len() {
                assert(t[i] == ids[i]);
            } else {
                assert(t[j] == ids[j]);
            }
        }
    }
}

proof fn lemma_no_unreachable(p: ProcessModel, ids: Seq<Seq<char>>)
    requires
        unreachable_errors(p, ids).len() == 0,
    ensures
        forall|i: int| 0 <= i < ids.len() ==> reachable_from_start(p, #[trigger] ids[i]),
    decreases ids.len(),
{
    if ids.len() > 0 {
        lemma_no_unreachable(p, ids.drop_last());
        assert forall|i: int| 0 <= i < ids.len() implies reachable_from_start(p, #[trigger] ids[i]) by {
            if i < ids.len() - 1 {
                assert(ids.drop_last()[i] == ids[i]);
            }
        }
    }
}

proof fn lemma_no_dead_end(p: ProcessModel, ids: Seq<Seq<char>>)
    requires
        dead_end_errors(p, ids).len() == 0,
    ensures
        forall|i: int| 0 <= i < ids.len() ==> reaches_end(p, #[trigger] ids[i]),
    decreases ids.len(),
{
    if ids.len() > 0 {
        lemma_no_dead_end(p, ids.drop_last());
        assert forall|i: int| 0 <= i < ids.len() implies reaches_end(p, #[trigger] ids[i]) by {
            if i < ids.len() - 1 {
                assert(ids.drop_last()[i] == ids[i]);
            }
        }
    }
}

/// Whether `x` is the id of an element of one of the seven node lists of
/// `p`: start events, end events, tasks, service tasks, script tasks,
/// exclusive gateways, parallel gateways.
pub open spec fn is_element_id(p: ProcessModel, x: Seq<char>) -> bool {
    ||| exists|i: int| 0 <= i < p.elements.start_events.len() && p.elements.start_events[i].id == x
    ||| exists|i: int| 0 <= i < p.elements.end_events.len() && p.elements.end_events[i].id == x
    ||| exists|i: int| 0 <= i < p.elements.tasks.len() && p.elements.tasks[i].id == x
    ||| exists|i: int| 0 <= i < p.elements.service_tasks.len() && p.elements.service_tasks[i] == x
    ||| exists|i: int| 0 <= i < p.elements.script_tasks.len() && p.elements.script_tasks[i] == x
    ||| exists|i: int| 0 <= i < p.elements.exclusive_gateways.len() && p.elements.exclusive_gateways[i] == x
    ||| exists|i: int| 0 <= i < p.elements.parallel_gateways.len() && p.elements.parallel_gateways[i] == x
}

/// The graph's nodes are exactly the process's flow nodes: an id is a node
/// id if and only if some start event, end event, task, service task,
/// script task, exclusive gateway or parallel gateway of the process has
/// it.
pub proof fn law_nodes_are_the_flow_nodes(p: ProcessModel, x: Seq<char>)
    ensures
        is_node(p, x) <==> is_element_id(p, x),
{
    let n = node_list(p);
    let o0: int = 0;
    let o1: int = (p.elements.start_events.len()) as int;
    let o2: int = (p.elements.start_events.len() + p.elements.end_events.len()) as int;
    let o3: int = (p.elements.start_events.len() + p.elements.end_events.len() + p.elements.tasks.len()) as int;
    let o4: int = (p.elements.start_events.len() + p.elements.end_events.len() + p.elements.tasks.len() + p.elements.service_tasks.len()) as int;
    let o5: int = (p.elements.start_events.len() + p.elements.end_events.len() + p.elements.tasks.len() + p.elements.service_tasks.len() + p.elements.script_tasks.len()) as int;
    let o6: int = (p.elements.start_events.len() + p.elements.end_events.len() + p.elements.tasks.len() + p.elements.service_tasks.len() + p.elements.script_tasks.len() + p.elements.exclusive_gateways.len()) as int;
    let o7: int = o6 + p.elements.parallel_gateways.len();
    assert(n.len() == o7);
    if is_element_id(p, x) {
        if exists|i: int| 0 <= i < p.elements.start_events.len() && p.elements.start_events[i].id == x {
            let i = choose|i: int| 0 <= i < p.elements.start_events.len() && p.elements.start_events[i].id == x;
            assert(n[o0 + i] == FlowNodeModel::StartEvent(p.elements.start_events[i]));
            assert(n[o0 + i].id() == x);
        }
        if exists|i: int| 0 <= i < p.elements.end_events.len() && p.elements.end_events[i].id == x {
            let i = choose|i: int| 0 <= i < p.elements.end_events.len() && p.elements.end_events[i].id == x;
            assert(n[o1 + i] == FlowNodeModel::EndEvent(p.elements.end_events[i]));
            assert(n[o1 + i].id() == x);
        }
        if exists|i: int| 0 <= i < p.elements.tasks.len() && p.elements.tasks[i].id == x {
            let i = choose|i: int| 0 <= i < p.elements.tasks.len() && p.elements.tasks[i].id == x;
            assert(n[o2 + i] == FlowNodeModel::Task(p.elements.tasks[i]));
            assert(n[o2 + i].id() == x);
        }
        if exists|i: int| 0 <= i < p.elements.service_tasks.len() && p.elements.service_tasks[i] == x {
            let i = choose|i: int| 0 <= i < p.elements.service_tasks.len() && p.elements.service_tasks[i] == x;
            assert(n[o3 + i] == FlowNodeModel::ServiceTask(p.elements.service_tasks[i]));
            assert(n[o3 + i].id() == x);
        }
        if exists|i: int| 0 <= i < p.elements.script_tasks.len() && p.elements.script_tasks[i] == x {
            let i = choose|i: int| 0 <= i < p.elements.script_tasks.len() && p.elements.script_tasks[i] == x;
            assert(n[o4 + i] == FlowNodeModel::ScriptTask(p.elements.script_tasks[i]));
            assert(n[o4 + i].id() == x);
        }
        if exists|i: int| 0 <= i < p.elements.exclusive_gateways.len() && p.elements.exclusive_gateways[i] == x {
            let i = choose|i: int| 0 <= i < p.elements.exclusive_gateways.len() && p.elements.exclusive_gateways[i] == x;
            assert(n[o5 + i] == FlowNodeModel::ExclusiveGateway(p.elements.exclusive_gateways[i]));
            assert(n[o5 + i].id() == x);
        }
        if exists|i: int| 0 <= i < p.elements.parallel_gateways.len() && p.elements.parallel_gateways[i] == x {
            let i = choose|i: int| 0 <= i < p.elements.parallel_gateways.len() && p.elements.parallel_gateways[i] == x;
            assert(n[o6 + i] == FlowNodeModel::ParallelGateway(p.elements.parallel_gateways[i]));
            assert(n[o6 + i].id() == x);
        }
    }
    if is_node(p, x) {
        let j = choose|j: int| 0 <= j < n.len() && (#[trigger] n[j]).id() == x;
        if j >= o6 {
            assert(n[j] == FlowNodeModel::ParallelGateway(p.elements.parallel_gateways[j - o6]));
            assert(p.elements.parallel_gateways[j - o6] == x);
        } else if j >= o5 {
            assert(n[j] == FlowNodeModel::ExclusiveGateway(p.elements.exclusive_gateways[j - o5]));
            assert(p.elements.exclusive_gateways[j - o5] == x);
        } else if j >= o4 {
            assert(n[j] == FlowNodeModel::ScriptTask(p.elements.script_tasks[j - o4]));
            assert(p.elements.script_tasks[j - o4] == x);
        } else if j >= o3 {
            assert(n[j] == FlowNodeModel::ServiceTask(p.elements.service_tasks[j - o3]));
            assert(p.elements.service_tasks[j - o3] == x);
        } else if j >= o2 {
            assert(n[j] == FlowNodeModel::Task(p.elements.tasks[j - o2]));
            assert(p.elements.tasks[j - o2].id == x);
        } else if j >= o1 {
            assert(n[j] == FlowNodeModel::EndEvent(p.elements.end_events[j - o1]));
            assert(p.elements.end_events[j - o1].id == x);
        } else {
            assert(n[j] == FlowNodeModel::StartEvent(p.elements.start_events[j - o0]));
            assert(p.elements.start_events[j - o0].id == x);
        }
    }
}

/// Dangling-reference errors of flows that all connect flow nodes: none.
proof fn lemma_no_dangling_between_nodes(p: ProcessModel, fl: Seq<SequenceFlowModel>)
    requires
        forall|i: int|
            0 <= i < fl.len() ==> is_element_id(p, #[trigger] fl[i].source_ref) && is_element_id(
                p,
                fl[i].target_ref,
            ),
    ensures
        dangling_errors(p, fl).len() == 0,
    decreases fl.len(),
{
    if fl.len() > 0 {
        let f = fl.last();
        assert(is_element_id(p, fl[fl.len() - 1].source_ref));
        law_nodes_are_the_flow_nodes(p, f.source_ref);
        law_nodes_are_the_flow_nodes(p, f.target_ref);
        assert forall|i: int| 0 <= i < fl.drop_last().len() implies is_element_id(
            p,
            #[trigger] fl.drop_last()[i].source_ref,
        ) && is_element_id(p, fl.drop_last()[i].target_ref) by {
            assert(fl.drop_last()[i] == fl[i]);
            assert(is_element_id(p, fl[i].source_ref));
        }
        lemma_no_dangling_between_nodes(p, fl.drop_last());
    }
}

/// A process whose every sequence flow connects two of its flow nodes (of
/// any of the seven kinds) has no dangling-reference error.
pub proof fn law_flows_between_flow_nodes_are_not_dangling(p: ProcessModel)
    requires
        forall|i: int|
            0 <= i < p.elements.sequence_flows.len() ==> is_element_id(p, #[trigger] p.elements.sequence_flows[i].source_ref)
                && is_element_id(p, p.elements.sequence_flows[i].target_ref),
    ensures
        dangling_errors(p, p.elements.sequence_flows).len() == 0,
{
    lemma_no_dangling_between_nodes(p, p.elements.sequence_flows);
}

} // verus!
