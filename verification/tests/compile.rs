use detent::bpmn::types::{EndEvent, SequenceFlow, StartEvent, Task};
use detent::compiler::compile::{
    compile_to_definitions, element_kind, frame_input, CompileError, Element, ElementKind, MdxInput,
};
use detent::compiler::mdx::{extract_type, MdxError, MdxFile};

fn s(x: &str) -> String {
    x.to_string()
}

fn input(name: &str, content: &str) -> MdxInput {
    MdxInput { filename: s(name), content: s(content) }
}

fn start(id: &str, out: &str) -> Element {
    Element::StartEvent(StartEvent { id: s(id), name: None, outgoing: vec![s(out)], documentation: None })
}

fn end(id: &str, inc: &str) -> Element {
    Element::EndEvent(EndEvent { id: s(id), name: None, incoming: vec![s(inc)], documentation: None })
}

fn task(id: &str, name: &str, inc: &str, out: &str) -> Element {
    Element::Task(Task {
        id: s(id),
        name: Some(s(name)),
        incoming: vec![s(inc)],
        outgoing: vec![s(out)],
        documentation: None,
    })
}

fn flow(id: &str, from: &str, to: &str) -> Element {
    Element::SequenceFlow(SequenceFlow {
        id: s(id),
        name: None,
        source_ref: s(from),
        target_ref: s(to),
        condition_expression: None,
        documentation: None,
    })
}

fn minimal_inputs() -> Vec<MdxInput> {
    vec![
        input("start_1.mdx", "---\ntype: bpmn:startEvent\nid: start_1\noutgoing:\n- flow_1\n---\n"),
        input("end_1.mdx", "---\ntype: bpmn:endEvent\nid: end_1\nincoming:\n- flow_2\n---\n"),
        input(
            "task_1.mdx",
            "---\ntype: bpmn:task\nid: task_1\nname: Do Something\nincoming:\n- flow_1\noutgoing:\n- flow_2\n---\n",
        ),
        input("flow_1.mdx", "---\ntype: bpmn:sequenceFlow\nid: flow_1\nsourceRef: start_1\ntargetRef: task_1\n---\n"),
        input("flow_2.mdx", "---\ntype: bpmn:sequenceFlow\nid: flow_2\nsourceRef: task_1\ntargetRef: end_1\n---\n"),
    ]
}

fn minimal_decoded() -> Vec<Result<Element, String>> {
    vec![
        Ok(start("start_1", "flow_1")),
        Ok(end("end_1", "flow_2")),
        Ok(task("task_1", "Do Something", "flow_1", "flow_2")),
        Ok(flow("flow_1", "start_1", "task_1")),
        Ok(flow("flow_2", "task_1", "end_1")),
    ]
}

#[test]
fn mdx_parse_splits_frontmatter_and_body() {
    let m = MdxFile::parse("  ---\ntype: bpmn:task\nid: t\n---\n# Body\n").ok().unwrap();
    assert_eq!(m.frontmatter, "type: bpmn:task\nid: t");
    assert_eq!(m.body, "\n# Body");
}

#[test]
fn mdx_parse_errors() {
    assert!(matches!(MdxFile::parse("# No frontmatter"), Err(MdxError::MissingOpeningDelimiter)));
    assert!(matches!(MdxFile::parse("---\nid: x\n"), Err(MdxError::MissingClosingDelimiter)));
    assert_eq!(
        MdxError::MissingOpeningDelimiter.message(),
        "MDX content must start with a '---' frontmatter delimiter"
    );
    assert_eq!(MdxError::MissingClosingDelimiter.message(), "MDX frontmatter is not closed by a '---' line");
}

#[test]
fn extract_type_reads_first_type_line() {
    assert_eq!(extract_type("id: x\n  type:  bpmn:task  \ntype: other"), Some(s("bpmn:task")));
    assert_eq!(extract_type("type:\nid: x"), None);
    assert_eq!(extract_type("id: x"), None);
    assert_eq!(extract_type("type: a\r\nid: x"), Some(s("a")));
}

#[test]
fn element_kinds_by_type_name() {
    assert_eq!(element_kind(&s("bpmn:startEvent")), Some(ElementKind::StartEvent));
    assert_eq!(element_kind(&s("bpmn:sequenceFlow")), Some(ElementKind::SequenceFlow));
    assert_eq!(element_kind(&s("bpmn:parallelGateway")), Some(ElementKind::ParallelGateway));
    assert_eq!(element_kind(&s("bpmn:process")), None);
}

#[test]
fn frame_input_reads_kind_and_frontmatter() {
    let (k, fm) = frame_input(&minimal_inputs()[2]).ok().unwrap();
    assert_eq!(k, ElementKind::Task);
    assert!(fm.starts_with("type: bpmn:task\nid: task_1"));
}

#[test]
fn minimal_mdx_compiles_to_process() {
    let defs = compile_to_definitions(&minimal_inputs(), &minimal_decoded()).ok().unwrap();
    assert_eq!(defs.id, "definitions_1");
    assert_eq!(defs.exporter, Some(s("detent")));
    let p = defs.process.unwrap();
    assert_eq!(p.id, "process_1");
    assert_eq!(p.is_executable, Some(true));
    assert_eq!(p.start_events.len(), 1);
    assert_eq!(p.tasks.len(), 1);
    assert_eq!(p.end_events.len(), 1);
    assert_eq!(p.sequence_flows.len(), 2);
    assert_eq!(p.sequence_flows[1].id, "flow_2");
}

#[test]
fn empty_inputs_are_refused() {
    let e = compile_to_definitions(&[], &[]).err().unwrap();
    assert!(matches!(e, CompileError::EmptyInputs));
    assert_eq!(e.message(), "No MDX inputs provided");
}

#[test]
fn missing_frontmatter_rejected() {
    let e = compile_to_definitions(&[input("bad.mdx", "# No frontmatter")], &[Err(s("unused"))]).err().unwrap();
    match &e {
        CompileError::ParseError { filename, .. } => assert_eq!(filename, "bad.mdx"),
        _ => panic!("expected a parse error"),
    }
    assert_eq!(
        e.message(),
        "Failed to parse bad.mdx: MDX content must start with a '---' frontmatter delimiter"
    );
}

#[test]
fn missing_type_rejected() {
    let e = compile_to_definitions(&[input("no_type.mdx", "---\nid: start_1\n---\n")], &[Err(s("unused"))])
        .err()
        .unwrap();
    assert!(matches!(&e, CompileError::MissingType { filename } if filename == "no_type.mdx"));
    assert_eq!(e.message(), "Missing 'type' field in frontmatter of no_type.mdx");
}

#[test]
fn unknown_type_rejected() {
    let e = compile_to_definitions(
        &[input("unknown.mdx", "---\ntype: bpmn:unknownElement\nid: x_1\n---\n")],
        &[Err(s("unused"))],
    )
    .err()
    .unwrap();
    assert!(matches!(&e, CompileError::UnknownType { bpmn_type, .. } if bpmn_type == "bpmn:unknownElement"));
    assert_eq!(e.message(), "Unknown BPMN type 'bpmn:unknownElement' in unknown.mdx");
}

#[test]
fn decoding_failure_rejected() {
    let mut decoded = minimal_decoded();
    decoded[1] = Err(s("missing field `id`"));
    let e = compile_to_definitions(&minimal_inputs(), &decoded).err().unwrap();
    assert_eq!(e.message(), "Failed to deserialize end_1.mdx frontmatter: missing field `id`");
}

#[test]
fn decoded_kind_must_match_type_line() {
    let mut decoded = minimal_decoded();
    decoded[0] = Ok(end("end_x", "flow_1"));
    let e = compile_to_definitions(&minimal_inputs(), &decoded).err().unwrap();
    assert!(matches!(e, CompileError::DeserializationError { .. }));
}

#[test]
fn first_failing_input_decides_the_error() {
    let mut inputs = minimal_inputs();
    inputs[3] = input("bad.mdx", "nothing");
    let mut decoded = minimal_decoded();
    decoded[1] = Err(s("broken"));
    let e = compile_to_definitions(&inputs, &decoded).err().unwrap();
    assert!(matches!(&e, CompileError::DeserializationError { filename, .. } if filename == "end_1.mdx"));
}

#[test]
fn dangling_flow_fails_graph_validation() {
    let inputs = vec![
        input("start_1.mdx", "---\ntype: bpmn:startEvent\nid: start_1\noutgoing:\n- flow_1\n---\n"),
        input("flow_1.mdx", "---\ntype: bpmn:sequenceFlow\nid: flow_1\nsourceRef: start_1\ntargetRef: ghost_task\n---\n"),
    ];
    let decoded = vec![Ok(start("start_1", "flow_1")), Ok(flow("flow_1", "start_1", "ghost_task"))];
    let e = compile_to_definitions(&inputs, &decoded).err().unwrap();
    match &e {
        CompileError::InvalidGraph(errors) => {
            assert_eq!(errors[0], "Process has no end event");
            assert!(errors.contains(&s("Sequence flow 'flow_1' has dangling targetRef 'ghost_task'")));
        },
        _ => panic!("expected graph errors"),
    }
    assert!(e.message().starts_with("Graph validation failed:\nProcess has no end event\n"));
}

#[test]
fn compilation_is_deterministic() {
    let a = compile_to_definitions(&minimal_inputs(), &minimal_decoded()).ok().unwrap();
    let b = compile_to_definitions(&minimal_inputs(), &minimal_decoded()).ok().unwrap();
    let pa = a.process.unwrap();
    let pb = b.process.unwrap();
    let ids = |p: &detent::bpmn::types::Process| -> Vec<String> {
        p.sequence_flows.iter().map(|f| f.id.clone()).chain(p.tasks.iter().map(|t| t.id.clone())).collect()
    };
    assert_eq!(ids(&pa), ids(&pb));
    let mut bad = minimal_decoded();
    bad[4] = Ok(flow("flow_2", "task_1", "nowhere"));
    let e1 = compile_to_definitions(&minimal_inputs(), &bad).err().unwrap().message();
    let mut bad2 = minimal_decoded();
    bad2[4] = Ok(flow("flow_2", "task_1", "nowhere"));
    let e2 = compile_to_definitions(&minimal_inputs(), &bad2).err().unwrap().message();
    assert_eq!(e1, e2);
}
