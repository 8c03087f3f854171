use detent::bpmn::types::{Definitions, EndEvent, Process, SequenceFlow, StartEvent, Task};
use detent::bpmn::xsd::XsdValidationError;
use detent::commands::import::{clean_yaml_for_mdx, import_items, mdx_file, merge_mdx};
use detent::compiler::compile::{frame_input, ElementKind, MdxInput};
use detent::commands::validate::{
    validate_definitions, validate_end_event, validate_file, validate_mdx, validate_process,
    validate_process_frontmatter, validate_sequence_flow, validate_start_event, validate_task,
    FileKind,
};

fn s(x: &str) -> String {
    x.to_string()
}

fn start(id: &str) -> StartEvent {
    StartEvent { id: s(id), name: None, outgoing: vec![], documentation: None }
}

fn end(id: &str) -> EndEvent {
    EndEvent { id: s(id), name: None, incoming: vec![], documentation: None }
}

fn task(id: &str) -> Task {
    Task { id: s(id), name: None, incoming: vec![], outgoing: vec![], documentation: None }
}

fn flow(id: &str, from: &str, to: &str) -> SequenceFlow {
    SequenceFlow { id: s(id), name: None, source_ref: s(from), target_ref: s(to), condition_expression: None, documentation: None }
}

fn process(id: &str, starts: Vec<StartEvent>, ends: Vec<EndEvent>) -> Process {
    Process {
        id: s(id),
        name: None,
        is_executable: None,
        process_type: None,
        documentation: None,
        start_events: starts,
        end_events: ends,
        tasks: vec![task("t1")],
        service_tasks: vec![],
        script_tasks: vec![],
        exclusive_gateways: vec![],
        parallel_gateways: vec![],
        sequence_flows: vec![flow("f1", "s1", "t1")],
    }
}

fn definitions(id: &str, p: Option<Process>) -> Definitions {
    Definitions {
        id: s(id),
        name: None,
        target_namespace: None,
        exporter: None,
        exporter_version: None,
        process: p,
        bpmn_diagram: None,
    }
}

#[test]
fn process_rules_in_order() {
    assert!(validate_process(&process("p", vec![start("s1")], vec![end("e1")])).is_ok());
    assert_eq!(validate_process(&process("", vec![], vec![])).unwrap_err(), "Process must have an id");
    assert_eq!(
        validate_process(&process("p", vec![], vec![])).unwrap_err(),
        "Process must have at least one start event"
    );
    assert_eq!(
        validate_process(&process("p", vec![start("s1")], vec![])).unwrap_err(),
        "Process must have at least one end event"
    );
}

#[test]
fn element_rules() {
    assert_eq!(validate_start_event(&start("")).unwrap_err(), "StartEvent must have an id");
    assert!(validate_start_event(&start("s")).is_ok());
    assert_eq!(validate_end_event(&end("")).unwrap_err(), "EndEvent must have an id");
    assert_eq!(validate_task(&task("")).unwrap_err(), "Task must have an id");
    assert!(validate_task(&task("t")).is_ok());
    assert_eq!(validate_sequence_flow(&flow("", "a", "b")).unwrap_err(), "SequenceFlow must have an id");
    assert_eq!(validate_sequence_flow(&flow("f", "", "b")).unwrap_err(), "SequenceFlow must have a sourceRef");
    assert_eq!(validate_sequence_flow(&flow("f", "a", "")).unwrap_err(), "SequenceFlow must have a targetRef");
    assert!(validate_sequence_flow(&flow("f", "a", "b")).is_ok());
    assert_eq!(validate_process_frontmatter(&process("", vec![], vec![])).unwrap_err(), "Process must have an id");
    assert!(validate_process_frontmatter(&process("p", vec![], vec![])).is_ok());
}

#[test]
fn definitions_rules() {
    assert_eq!(validate_definitions(&definitions("", None)).unwrap_err(), "BPMN definitions must have an id");
    assert!(validate_definitions(&definitions("d", None)).is_ok());
    assert_eq!(
        validate_definitions(&definitions("d", Some(process("p", vec![], vec![])))).unwrap_err(),
        "Process must have at least one start event"
    );
}

#[test]
fn file_kinds_by_extension() {
    assert_eq!(validate_file("bpmn").ok(), Some(FileKind::Bpmn));
    assert_eq!(validate_file("bpmn2").ok(), Some(FileKind::Bpmn));
    assert_eq!(validate_file("mdx").ok(), Some(FileKind::Mdx));
    assert_eq!(validate_file("txt").unwrap_err(), "Unknown file type: .txt");
    assert_eq!(validate_file("").unwrap_err(), "Unknown file type: .");
}

#[test]
fn mdx_candidates_in_order() {
    let none_p: Option<Process> = None;
    assert!(validate_mdx(&Some(process("p", vec![], vec![])), &Some(start("")), &None, &None, &None).is_ok());
    assert_eq!(
        validate_mdx(&none_p, &Some(start("")), &Some(end("e")), &None, &None).unwrap_err(),
        "StartEvent must have an id"
    );
    assert!(validate_mdx(&none_p, &None, &Some(end("e")), &None, &None).is_ok());
    assert_eq!(
        validate_mdx(&none_p, &None, &None, &None, &Some(flow("f", "", "b"))).unwrap_err(),
        "SequenceFlow must have a sourceRef"
    );
    assert_eq!(
        validate_mdx(&none_p, &None, &None, &None, &None).unwrap_err(),
        "Could not parse frontmatter as a valid BPMN type"
    );
}

#[test]
fn command_import_cleans_and_frames() {
    let f = mdx_file("start_1", "bpmn:startEvent", "'@id': start_1\noutgoing:\n- flow_1\n");
    assert_eq!(f.filename, "start_1.mdx");
    assert_eq!(f.content, "---\ntype: bpmn:startEvent\nid: start_1\noutgoing:\n- flow_1\n---\n");
    assert_eq!(clean_yaml_for_mdx("'@xsi:type': x\n"), "'@xsi:type': x\n");
    assert_eq!(clean_yaml_for_mdx("doc:\n  $text: hi\n"), "doc:\n  text: hi\n");
}

#[test]
fn command_import_items_in_kind_order() {
    assert!(import_items(&definitions("d", None)).is_none());
    let items = import_items(&definitions("d", Some(process("p", vec![start("s1")], vec![end("e1")])))).unwrap();
    let ids: Vec<&str> = items.iter().map(|i| i.id.as_str()).collect();
    assert_eq!(ids, vec!["s1", "e1", "t1", "f1"]);
    let types: Vec<&str> = items.iter().map(|i| i.bpmn_type.as_str()).collect();
    assert_eq!(types, vec!["bpmn:startEvent", "bpmn:endEvent", "bpmn:task", "bpmn:sequenceFlow"]);
}

#[test]
fn xsd_error_messages() {
    assert_eq!(XsdValidationError::FileReadError(s("gone")).message(), "File read error: gone");
    assert_eq!(XsdValidationError::XmlParseError(s("bad")).message(), "XML parse error: bad");
    assert_eq!(
        XsdValidationError::SchemaParseError(vec![s("a"), s("b")]).message(),
        "Schema parse errors:\n  - a  - b"
    );
    assert_eq!(XsdValidationError::ValidationError(vec![]).message(), "XSD validation errors:\n");
}

#[test]
fn command_import_files_frame_back_to_their_kind() {
    let items = import_items(&definitions("d", Some(process("p", vec![start("s1")], vec![end("e1")])))).unwrap();
    let expected = [ElementKind::StartEvent, ElementKind::EndEvent, ElementKind::Task, ElementKind::SequenceFlow];
    for (item, kind) in items.iter().zip(expected.iter()) {
        let yaml = format!("'@id': {}\n", item.id);
        let file = mdx_file(&item.id, &item.bpmn_type, &yaml);
        let (k, fm) = frame_input(&MdxInput { filename: file.filename, content: file.content }).ok().unwrap();
        assert_eq!(k, *kind);
        assert_eq!(fm, format!("type: {}\nid: {}", item.bpmn_type, item.id));
    }
}

#[test]
fn command_clean_yaml_dollar_key_at_start() {
    assert_eq!(clean_yaml_for_mdx("$text: hi\n"), "text: hi\n");
    assert_eq!(clean_yaml_for_mdx("a: 1\n$b: 2\n"), "a: 1\nb: 2\n");
}

#[test]
fn reimport_keeps_existing_body() {
    let new = "---\ntype: bpmn:task\nid: t1\n---\n";
    assert_eq!(merge_mdx(new, None), new);
    let old = "---\ntype: bpmn:task\nid: old\n---\n# Notes\n\nKeep me.  \n\n";
    let merged = merge_mdx(new, Some(old));
    assert_eq!(merged, "---\ntype: bpmn:task\nid: t1\n---\n# Notes\n\nKeep me.  \n\n");
    assert_eq!(merge_mdx(new, Some("---\nid: x\n---\nHello")), "---\ntype: bpmn:task\nid: t1\n---\nHello");
    assert_eq!(merge_mdx(new, Some("---\nid: old\n---\n")), new);
    assert_eq!(merge_mdx(new, Some("---\nid: old\n---")), new);
    assert_eq!(merge_mdx(new, Some("no frontmatter here")), new);
    assert_eq!(merge_mdx(new, Some(&merged)), merged);
}
