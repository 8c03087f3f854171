use detent::bpmn::graph::Graph;
use detent::bpmn::types::{
    EndEvent, ExclusiveGateway, FlowNode, ParallelGateway, Process, ScriptTask, SequenceFlow,
    ServiceTask, StartEvent, Task,
};

fn s(x: &str) -> String {
    x.to_string()
}

fn start(id: &str, outgoing: &[&str]) -> StartEvent {
    StartEvent {
        id: s(id),
        name: None,
        outgoing: outgoing.iter().map(|o| s(o)).collect(),
        documentation: None,
    }
}

fn end(id: &str, incoming: &[&str]) -> EndEvent {
    EndEvent {
        id: s(id),
        name: None,
        incoming: incoming.iter().map(|o| s(o)).collect(),
        documentation: None,
    }
}

fn task(id: &str) -> Task {
    Task { id: s(id), name: Some(s("Work")), incoming: vec![], outgoing: vec![], documentation: None }
}

fn flow(id: &str, from: &str, to: &str) -> SequenceFlow {
    SequenceFlow {
        id: s(id),
        name: None,
        source_ref: s(from),
        target_ref: s(to),
        condition_expression: None,
        documentation: None,
    }
}

fn process(
    starts: Vec<StartEvent>,
    ends: Vec<EndEvent>,
    tasks: Vec<Task>,
    flows: Vec<SequenceFlow>,
) -> Process {
    Process {
        id: s("process_1"),
        name: None,
        is_executable: Some(true),
        process_type: None,
        documentation: None,
        start_events: starts,
        end_events: ends,
        tasks,
        service_tasks: vec![],
        script_tasks: vec![],
        exclusive_gateways: vec![],
        parallel_gateways: vec![],
        sequence_flows: flows,
    }
}

#[test]
fn test_flow_node_id() {
    let start = FlowNode::StartEvent(StartEvent {
        id: "start_1".to_string(),
        name: Some("Start".to_string()),
        outgoing: vec!["flow_1".to_string()],
        documentation: None,
    });
    assert_eq!(start.id(), "start_1");
    assert_eq!(start.bpmn_type_name(), "bpmn:startEvent");
}

#[test]
fn flow_node_accessors_by_kind() {
    let st = FlowNode::StartEvent(start("s", &["f1"]));
    assert_eq!(st.name(), None);
    assert!(st.incoming().is_empty());
    assert_eq!(st.outgoing().to_vec(), vec![s("f1")]);

    let en = FlowNode::EndEvent(end("e", &["f2"]));
    assert_eq!(en.bpmn_type_name(), "bpmn:endEvent");
    assert_eq!(en.incoming().to_vec(), vec![s("f2")]);
    assert!(en.outgoing().is_empty());

    let t = FlowNode::Task(task("t"));
    assert_eq!(t.name(), Some("Work"));
    assert_eq!(t.bpmn_type_name(), "bpmn:task");

    let svc = FlowNode::ServiceTask(ServiceTask {
        id: s("svc"),
        name: None,
        implementation: Some(s("impl")),
        incoming: vec![s("a")],
        outgoing: vec![s("b")],
        documentation: None,
    });
    assert_eq!(svc.bpmn_type_name(), "bpmn:serviceTask");
    assert_eq!(svc.incoming().to_vec(), vec![s("a")]);
    assert_eq!(svc.outgoing().to_vec(), vec![s("b")]);

    let scr = FlowNode::ScriptTask(ScriptTask {
        id: s("scr"),
        name: Some(s("Script")),
        script_format: None,
        incoming: vec![],
        outgoing: vec![],
        script: None,
        documentation: None,
    });
    assert_eq!(scr.bpmn_type_name(), "bpmn:scriptTask");
    assert_eq!(scr.id(), "scr");

    let xg = FlowNode::ExclusiveGateway(ExclusiveGateway {
        id: s("xg"),
        name: None,
        gateway_direction: None,
        default: None,
        incoming: vec![],
        outgoing: vec![],
        documentation: None,
    });
    assert_eq!(xg.bpmn_type_name(), "bpmn:exclusiveGateway");

    let pg = FlowNode::ParallelGateway(ParallelGateway {
        id: s("pg"),
        name: None,
        gateway_direction: None,
        incoming: vec![],
        outgoing: vec![],
        documentation: None,
    });
    assert_eq!(pg.bpmn_type_name(), "bpmn:parallelGateway");
}

#[test]
fn nodes_come_in_kind_order() {
    let p = process(vec![start("s", &[])], vec![end("e", &[])], vec![task("t")], vec![]);
    let nodes = p.flow_elements().nodes();
    let ids: Vec<&str> = nodes.iter().map(|n| n.id()).collect();
    assert_eq!(ids, vec!["s", "e", "t"]);
}

#[test]
fn graph_finds_nodes_and_neighbours() {
    let p = process(
        vec![start("s", &["f1"])],
        vec![end("e", &["f2"])],
        vec![task("t")],
        vec![flow("f1", "s", "t"), flow("f2", "t", "e")],
    );
    let g = Graph::new(&p);
    assert_eq!(g.find_node("t").map(|n| n.id()), Some("t"));
    assert!(g.find_node("missing").is_none());
    let succ: Vec<&str> = g.successors("s").iter().map(|n| n.id()).collect();
    assert_eq!(succ, vec!["t"]);
    let pred: Vec<&str> = g.predecessors("e").iter().map(|n| n.id()).collect();
    assert_eq!(pred, vec!["t"]);
    assert!(g.validate().is_ok());
}

#[test]
fn graph_reports_dangling_references() {
    let p = process(
        vec![start("s", &["f1"])],
        vec![],
        vec![],
        vec![flow("f1", "s", "ghost"), flow("f2", "nowhere", "s")],
    );
    let g = Graph::new(&p);
    let errors = g.validate().unwrap_err();
    assert_eq!(
        errors,
        vec![
            s("Sequence flow 'f1' has dangling targetRef 'ghost'"),
            s("Sequence flow 'f2' has dangling sourceRef 'nowhere'"),
        ]
    );
}

#[test]
fn successor_predecessor_and_flow_counts_agree() {
    let p = process(
        vec![start("s", &["f1", "f2"])],
        vec![end("e", &[])],
        vec![task("t")],
        vec![flow("f1", "s", "t"), flow("f2", "s", "t"), flow("f3", "t", "e"), flow("f4", "s", "ghost")],
    );
    let g = Graph::new(&p);
    for a in ["s", "t", "e"] {
        for b in ["s", "t", "e"] {
            let succ = g.successors(a).iter().filter(|n| n.id() == b).count();
            let pred = g.predecessors(b).iter().filter(|n| n.id() == a).count();
            let flows = p.sequence_flows.iter().filter(|f| f.source_ref == a && f.target_ref == b).count();
            assert_eq!(succ, flows);
            assert_eq!(pred, flows);
        }
    }
    assert_eq!(g.successors("s").len(), 2);
}
