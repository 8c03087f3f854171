use detent::bpmn::types::{ConditionExpression, Documentation, EndEvent, SequenceFlow, StartEvent};
use detent::compiler::compile::{frame_input, ElementKind, MdxInput};
use detent::transpiler::adapter::{apply_bpmn_namespaces, strip_unsupported};
use detent::transpiler::import::{
    clean_yaml_for_mdx, edge_diagram, find_diagram, import_entries, import_to_mdx, indent_lines,
    normalized_flow, process_metadata, shape_diagram, to_diagram_mdx, ImportData, ImportError,
    SerializedEntry,
};
use detent::transpiler::types::{
    BPMNDiagram, BPMNEdge, BPMNLabel, BPMNPlane, BPMNShape, Bounds, Definitions, Process, Waypoint,
};

fn s(x: &str) -> String {
    x.to_string()
}

fn bounds(x: &str) -> Bounds {
    Bounds { x: s(x), y: s("2"), width: s("36"), height: s("36") }
}

fn shape(id: &str, element: &str, x: &str) -> BPMNShape {
    BPMNShape { id: s(id), bpmn_element: s(element), is_marker_visible: None, bounds: bounds(x), label: None }
}

fn edge(id: &str, element: &str) -> BPMNEdge {
    BPMNEdge {
        id: s(id),
        bpmn_element: s(element),
        waypoints: vec![Waypoint { x: s("10"), y: s("20") }, Waypoint { x: s("30"), y: s("40") }],
        label: Some(BPMNLabel { bounds: bounds("5") }),
    }
}

fn start(id: &str) -> StartEvent {
    StartEvent { id: s(id), name: Some(s("Start")), outgoing: vec![s("f1")], documentation: None }
}

fn end(id: &str) -> EndEvent {
    EndEvent { id: s(id), name: None, incoming: vec![s("f1")], documentation: None }
}

fn conditional_flow(id: &str, xsi: Option<&str>) -> SequenceFlow {
    SequenceFlow {
        id: s(id),
        name: None,
        source_ref: s("s1"),
        target_ref: s("e1"),
        condition_expression: Some(ConditionExpression { xsi_type: xsi.map(s), expression: s("x > 1") }),
        documentation: None,
    }
}

fn process() -> Process {
    Process {
        id: s("p1"),
        name: Some(s("Hello")),
        is_executable: Some(false),
        is_closed: None,
        process_type: Some(s("Private")),
        documentation: Some(Documentation { text: s("doc") }),
        start_events: vec![start("s1")],
        end_events: vec![end("e1")],
        tasks: vec![],
        manual_tasks: vec![],
        user_tasks: vec![],
        service_tasks: vec![],
        script_tasks: vec![],
        exclusive_gateways: vec![],
        parallel_gateways: vec![],
        sequence_flows: vec![conditional_flow("f1", None)],
    }
}

fn definitions() -> Definitions {
    Definitions {
        id: s("defs"),
        name: None,
        target_namespace: Some(s("http://example.org")),
        exporter: Some(s("modeler")),
        exporter_version: None,
        process: Some(process()),
        bpmn_diagram: Some(BPMNDiagram {
            id: s("diagram_1"),
            plane: BPMNPlane {
                id: s("plane_1"),
                bpmn_element: s("p1"),
                shapes: vec![shape("shape_a", "s1", "1"), shape("shape_b", "s1", "7"), shape("shape_x", "", "0")],
                edges: vec![edge("edge_1", "f1")],
            },
        }),
    }
}

fn ok(t: &str) -> Result<String, String> {
    Ok(s(t))
}

#[test]
fn clean_yaml_strips_attribute_prefixes() {
    assert_eq!(clean_yaml_for_mdx("'@id': start_1\n'@name': Start\n"), "id: start_1\nname: Start\n");
    assert_eq!(clean_yaml_for_mdx("\"@id\": x\n"), "id: x\n");
    assert_eq!(clean_yaml_for_mdx("documentation:\n  $text: hello\n"), "documentation:\n  text: hello\n");
    assert_eq!(clean_yaml_for_mdx("'$value': v\n"), "value: v\n");
    assert_eq!(clean_yaml_for_mdx("$text: hello\n"), "$text: hello\n");
    assert_eq!(clean_yaml_for_mdx("a: 1\n$text: hello\n"), "a: 1\ntext: hello\n");
    assert_eq!(clean_yaml_for_mdx("plain: value\n"), "plain: value\n");
}

#[test]
fn clean_yaml_qualified_keys() {
    assert_eq!(clean_yaml_for_mdx("'@xsi:type': bpmn:tFormalExpression\n"), "type: bpmn:tFormalExpression\n");
}

#[test]
fn indent_lines_indents_every_line() {
    assert_eq!(indent_lines("a\nb\n"), "  a\n  b\n");
    assert_eq!(indent_lines("a\nb"), "  a\n  b\n");
    assert_eq!(indent_lines(""), "\n");
    assert_eq!(indent_lines("x\r\ny"), "  x\n  y\n");
    assert_eq!(indent_lines("\n\nz"), "  \n  \n  z\n");
}

#[test]
fn to_diagram_mdx_layout() {
    let plain = to_diagram_mdx("t1", "bpmn:task", "'@id': t1\n", None);
    assert_eq!(plain.filename, "t1.mdx");
    assert_eq!(plain.content, "---\ntype: bpmn:task\nid: t1\n---\n");
    let with = to_diagram_mdx("t1", "bpmn:task", "'@id': t1\n", Some("id: shape\nbounds:\n  x: '1'\n"));
    assert_eq!(with.content, "---\ntype: bpmn:task\nid: t1\ndiagram:\n  id: shape\n  bounds:\n    x: '1'\n---\n");
}

#[test]
fn shape_and_edge_entries() {
    let d = shape_diagram(&shape("shape_a", "s1", "1"));
    assert_eq!(d.id, "shape_a");
    assert_eq!(d.bounds.as_ref().unwrap().x, "1");
    assert!(d.waypoints.is_none());
    let e = edge_diagram(&edge("edge_1", "f1"));
    assert!(e.bounds.is_none());
    assert!(e.is_marker_visible.is_none());
    let w = e.waypoints.unwrap();
    assert_eq!(w.len(), 2);
    assert_eq!(w[1].x, "30");
    assert_eq!(e.label.unwrap().bounds.x, "5");
}

#[test]
fn diagram_lookup_prefers_last_edge_then_last_shape() {
    let d = definitions();
    assert_eq!(find_diagram(&d, &s("s1")).unwrap().id, "shape_b");
    assert_eq!(find_diagram(&d, &s("f1")).unwrap().id, "edge_1");
    assert!(find_diagram(&d, &s("e1")).is_none());
    assert!(find_diagram(&d, &s("")).is_none());
}

#[test]
fn flow_conditions_get_an_expression_type() {
    let f = normalized_flow(&conditional_flow("f", None));
    assert_eq!(f.condition_expression.unwrap().xsi_type, Some(s("bpmn:tFormalExpression")));
    let g = normalized_flow(&conditional_flow("g", Some("custom")));
    assert_eq!(g.condition_expression.unwrap().xsi_type, Some(s("custom")));
    let f2 = normalized_flow(&normalized_flow(&conditional_flow("f", None)));
    assert_eq!(f2.condition_expression.unwrap().expression, "x > 1");
}

#[test]
fn process_metadata_collects_document_attributes() {
    let d = definitions();
    let m = process_metadata(&d, d.process.as_ref().unwrap());
    assert_eq!(m.id, "p1");
    assert_eq!(m.process_type, Some(s("Private")));
    assert_eq!(m.definitions.id, "defs");
    assert_eq!(m.definitions.target_namespace, Some(s("http://example.org")));
    let dg = m.diagram.unwrap();
    assert_eq!(dg.id, "diagram_1");
    assert_eq!(dg.plane.bpmn_element, "p1");
}

#[test]
fn import_plan_order_and_diagrams() {
    let entries = import_entries(&definitions()).ok().unwrap();
    let ids: Vec<&str> = entries.iter().map(|e| e.id.as_str()).collect();
    assert_eq!(ids, vec!["p1", "s1", "e1", "f1"]);
    let types: Vec<&str> = entries.iter().map(|e| e.bpmn_type.as_str()).collect();
    assert_eq!(types, vec!["bpmn:process", "bpmn:startEvent", "bpmn:endEvent", "bpmn:sequenceFlow"]);
    assert!(entries[0].diagram.is_none());
    assert_eq!(entries[1].diagram.as_ref().unwrap().id, "shape_b");
    assert!(entries[2].diagram.is_none());
    assert_eq!(entries[3].diagram.as_ref().unwrap().id, "edge_1");
    match &entries[3].data {
        ImportData::SequenceFlow(f) => assert_eq!(
            f.condition_expression.as_ref().unwrap().xsi_type,
            Some(s("bpmn:tFormalExpression"))
        ),
        _ => panic!("expected a sequence flow"),
    }
}

#[test]
fn import_writes_one_file_per_element() {
    let d = definitions();
    let serialized = vec![
        SerializedEntry { data: ok("'@id': p1\n"), diagram: ok("") },
        SerializedEntry { data: ok("'@id': s1\n"), diagram: ok("id: shape_b\n") },
        SerializedEntry { data: ok("'@id': e1\n"), diagram: Err(s("never read")) },
        SerializedEntry { data: ok("'@id': f1\n"), diagram: ok("id: edge_1\n") },
    ];
    let outputs = import_to_mdx(&d, &serialized).ok().unwrap();
    assert_eq!(outputs.len(), 4);
    assert_eq!(outputs[0].filename, "p1.mdx");
    assert_eq!(outputs[0].content, "---\ntype: bpmn:process\nid: p1\n---\n");
    assert_eq!(outputs[1].content, "---\ntype: bpmn:startEvent\nid: s1\ndiagram:\n  id: shape_b\n---\n");
    assert_eq!(outputs[2].content, "---\ntype: bpmn:endEvent\nid: e1\n---\n");
    assert_eq!(outputs[3].filename, "f1.mdx");
    for o in &outputs {
        assert!(o.content.starts_with("---\n"));
        assert!(o.content.contains("\n---\n"));
        assert!(o.content.contains("type: bpmn:"));
    }
}

#[test]
fn import_without_process_fails() {
    let mut d = definitions();
    d.process = None;
    let e = import_to_mdx(&d, &[]).err().unwrap();
    assert!(matches!(e, ImportError::NoProcess));
    assert_eq!(e.message(), "No process found in BPMN definitions");
}

#[test]
fn import_reports_first_serialization_error() {
    let d = definitions();
    let serialized = vec![
        SerializedEntry { data: ok("'@id': p1\n"), diagram: ok("") },
        SerializedEntry { data: ok("'@id': s1\n"), diagram: Err(s("bad diagram")) },
        SerializedEntry { data: Err(s("bad end")), diagram: ok("") },
        SerializedEntry { data: ok("'@id': f1\n"), diagram: ok("") },
    ];
    let e = import_to_mdx(&d, &serialized).err().unwrap();
    assert_eq!(e.message(), "Serialization error: bad diagram");
}

#[test]
fn strip_unsupported_removes_collaborations() {
    assert_eq!(
        strip_unsupported("<a/><bpmn:collaboration id=\"c\"><x/></bpmn:collaboration><b/>"),
        "<a/><b/>"
    );
    assert_eq!(strip_unsupported("<process id=\"p\"/>"), "<process id=\"p\"/>");
}

#[test]
fn namespaces_are_applied() {
    let xml = apply_bpmn_namespaces("<definitions id=\"d\"><process id=\"p\"><BPMNShape><Bounds/><waypoint/></BPMNShape></process></definitions>");
    let expected = [
        "<?xml version=\"1.0\" encoding=\"UTF-8\"?>\n",
        "<bpmn:definitions xmlns:bpmn=\"http://www.omg.org/spec/BPMN/20100524/MODEL\" ",
        "xmlns:bpmndi=\"http://www.omg.org/spec/BPMN/20100524/DI\" ",
        "xmlns:dc=\"http://www.omg.org/spec/DD/20100524/DC\" ",
        "xmlns:di=\"http://www.omg.org/spec/DD/20100524/DI\" id=\"d\">",
        "<bpmn:process id=\"p\"><bpmndi:BPMNShape><dc:Bounds/><di:waypoint/></bpmndi:BPMNShape></bpmn:process>",
        "</bpmn:definitions>",
    ]
    .join("");
    assert_eq!(xml, expected);
}

#[test]
fn end_event_needs_an_id() {
    assert!(end("e1").validate().is_ok());
    assert_eq!(end("").validate().unwrap_err(), "EndEvent must have an id");
}

#[test]
fn imported_file_frames_back_to_its_kind() {
    let out = to_diagram_mdx("t1", "bpmn:task", "'@id': t1\nname: Work\n", None);
    let input = MdxInput { filename: out.filename.clone(), content: out.content.clone() };
    let (kind, frontmatter) = frame_input(&input).ok().unwrap();
    assert_eq!(kind, ElementKind::Task);
    assert_eq!(frontmatter, "type: bpmn:task\nid: t1\nname: Work");
    let process_file = to_diagram_mdx("p1", "bpmn:process", "'@id': p1\n", None);
    let e = frame_input(&MdxInput { filename: process_file.filename, content: process_file.content }).err().unwrap();
    assert_eq!(e.message(), "Unknown BPMN type 'bpmn:process' in p1.mdx");
}
