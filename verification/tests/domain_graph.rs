use detent::domain::bpmn::{EndEvent, Process, SequenceFlow, StartEvent, Task};
use detent::domain::process_graph::Graph;

fn s(x: &str) -> String {
    x.to_string()
}

fn start(id: &str) -> StartEvent {
    StartEvent { id: s(id), name: None, outgoing: vec![], documentation: None }
}

fn end(id: &str) -> EndEvent {
    EndEvent { id: s(id), name: None, incoming: vec![], documentation: None }
}

fn task(id: &str) -> Task {
    Task { id: s(id), name: None, incoming: vec![], outgoing: vec![], documentation: None }
}

fn flow(id: &str, from: &str, to: &str) -> SequenceFlow {
    SequenceFlow { id: s(id), source_ref: s(from), target_ref: s(to) }
}

fn process(
    starts: Vec<StartEvent>,
    ends: Vec<EndEvent>,
    tasks: Vec<Task>,
    flows: Vec<SequenceFlow>,
) -> Process {
    Process {
        id: s("p"),
        name: None,
        is_executable: None,
        process_type: None,
        documentation: None,
        start_events: starts,
        end_events: ends,
        tasks,
        service_tasks: vec![],
        script_tasks: vec![],
        exclusive_gateways: vec![],
        parallel_gateways: vec![],
        sequence_flows: flows,
    }
}

fn linear() -> Process {
    process(
        vec![start("s")],
        vec![end("e")],
        vec![task("t")],
        vec![flow("f1", "s", "t"), flow("f2", "t", "e")],
    )
}

#[test]
fn valid_linear_process_passes() {
    let p = linear();
    let g = Graph::new(&p);
    assert!(g.validate().is_ok());
}

#[test]
fn entry_and_exit_nodes_are_the_events() {
    let p = linear();
    let g = Graph::new(&p);
    let entries: Vec<&str> = g.entry_nodes().iter().map(|n| n.id()).collect();
    let exits: Vec<&str> = g.exit_nodes().iter().map(|n| n.id()).collect();
    assert_eq!(entries, vec!["s"]);
    assert_eq!(exits, vec!["e"]);
}

#[test]
fn reachable_from_includes_start_and_successors() {
    let p = linear();
    let g = Graph::new(&p);
    let mut r = g.reachable_from("s");
    r.sort();
    assert_eq!(r, vec![s("e"), s("s"), s("t")]);
    let from_end = g.reachable_from("e");
    assert_eq!(from_end, vec![s("e")]);
}

#[test]
fn reachable_is_closed_under_successors() {
    let p = linear();
    let g = Graph::new(&p);
    let r = g.reachable_from("s");
    for id in &r {
        for succ in g.successors(id) {
            assert!(r.iter().any(|x| x == succ.id()));
        }
    }
}

#[test]
fn successor_and_predecessor_are_dual() {
    let p = linear();
    let g = Graph::new(&p);
    for a in ["s", "t", "e"] {
        for b in ["s", "t", "e"] {
            let fwd = g.successors(a).iter().any(|n| n.id() == b);
            let back = g.predecessors(b).iter().any(|n| n.id() == a);
            assert_eq!(fwd, back);
        }
    }
}

#[test]
fn find_node_returns_node_or_none() {
    let p = linear();
    let g = Graph::new(&p);
    assert_eq!(g.find_node("t").map(|n| n.id()), Some("t"));
    assert!(g.find_node("zzz").is_none());
}

#[test]
fn missing_start_and_end_are_reported() {
    let p = process(vec![], vec![], vec![task("t")], vec![]);
    let g = Graph::new(&p);
    let errors = g.validate().unwrap_err();
    assert_eq!(errors[0], "Process has no start event");
    assert_eq!(errors[1], "Process has no end event");
    assert!(errors.contains(&s("Node 't' is unreachable from any start event")));
    assert!(errors.contains(&s("Node 't' is a dead end (cannot reach any end event)")));
}

#[test]
fn dangling_references_are_reported() {
    let p = process(vec![start("s")], vec![end("e")], vec![], vec![flow("f1", "s", "ghost"), flow("f2", "s", "e")]);
    let g = Graph::new(&p);
    let errors = g.validate().unwrap_err();
    assert_eq!(errors, vec![s("Sequence flow 'f1' has dangling targetRef 'ghost'")]);
}

#[test]
fn duplicate_ids_are_reported() {
    let p = process(
        vec![start("s")],
        vec![end("e")],
        vec![task("s")],
        vec![flow("f1", "s", "e"), flow("e", "s", "e")],
    );
    let g = Graph::new(&p);
    let errors = g.validate().unwrap_err();
    assert!(errors.contains(&s("Duplicate element ID 's'")));
    assert!(errors.contains(&s("Duplicate element ID 'e'")));
}

#[test]
fn dead_end_and_unreachable_nodes_are_reported() {
    let p = process(
        vec![start("s")],
        vec![end("e")],
        vec![task("t"), task("island")],
        vec![flow("f1", "s", "e"), flow("f2", "s", "t")],
    );
    let g = Graph::new(&p);
    let errors = g.validate().unwrap_err();
    assert_eq!(
        errors,
        vec![
            s("Node 'island' is unreachable from any start event"),
            s("Node 't' is a dead end (cannot reach any end event)"),
            s("Node 'island' is a dead end (cannot reach any end event)"),
        ]
    );
}
