//! Text-level adjustments around BPMN XML reading and writing: elements the
//! types do not model are cut out before parsing, and serialized XML gets
//! its namespace prefixes and declaration back.

use vstd::prelude::*;
use crate::bpmn::types::EndEvent;
use crate::patterns::{replace_all, replace_first, rewrite_all, rewrite_first};

verus! {

/// Lane sets, lanes, collaborations and participants, with their content.
pub const UNSUPPORTED_ELEMENTS: &'static str = r"(?s)<(?:bpmn:)?(laneSet|lane|collaboration|participant)\b[^>]*>.*?</(?:bpmn:)?(?:laneSet|lane|collaboration|participant)\s*>";

/// The opening of an unprefixed `definitions` element.
pub const DEFINITIONS_OPEN: &'static str = r#"<definitions "#;

/// The prefixed `definitions` opening with the four BPMN namespace
/// declarations.
pub const DEFINITIONS_WITH_NAMESPACES: &'static str = r#"<bpmn:definitions xmlns:bpmn="http://www.omg.org/spec/BPMN/20100524/MODEL" xmlns:bpmndi="http://www.omg.org/spec/BPMN/20100524/DI" xmlns:dc="http://www.omg.org/spec/DD/20100524/DC" xmlns:di="http://www.omg.org/spec/DD/20100524/DI" "#;

/// Tags of the BPMN model namespace.
pub const MODEL_TAGS: &'static str = r"(</?)(definitions|process|startEvent|endEvent|task|manualTask|userTask|serviceTask|scriptTask|exclusiveGateway|parallelGateway|sequenceFlow|outgoing|incoming|sequenceFlow|conditionExpression|documentation|extensionElements|laneSet|lane)\b";

/// Tags of the BPMN diagram interchange namespace.
pub const DIAGRAM_TAGS: &'static str = r"(</?)(BPMNDiagram|BPMNPlane|BPMNShape|BPMNEdge|BPMNLabel)\b";

/// Tags of the diagram common namespace.
pub const BOUNDS_TAGS: &'static str = r"(</?)(Bounds)\b";

/// Tags of the diagram interchange namespace.
pub const WAYPOINT_TAGS: &'static str = r"(</?)(waypoint)\b";

/// The tag with the `bpmn` prefix.
pub const MODEL_PREFIXED: &'static str = "${1}bpmn:${2}";

/// The tag with the `bpmndi` prefix.
pub const DIAGRAM_PREFIXED: &'static str = "${1}bpmndi:${2}";

/// The tag with the `dc` prefix.
pub const BOUNDS_PREFIXED: &'static str = "${1}dc:${2}";

/// The tag with the `di` prefix.
pub const WAYPOINT_PREFIXED: &'static str = "${1}di:${2}";

/// The XML declaration line, without its line break.
pub const XML_DECLARATION: &'static str = "<?xml version=\"1.0\" encoding=\"UTF-8\"?>";

/// The removal text.
pub const NOTHING: &'static str = "";

/// XML without the elements the BPMN types do not model (lane sets, lanes,
/// collaborations, participants), content included.
pub open spec fn stripped(xml: Seq<char>) -> Seq<char> {
    rewrite_all(UNSUPPORTED_ELEMENTS@, xml, NOTHING@)
}

/// Remove the elements the BPMN types do not model.
pub fn strip_unsupported(xml: &str) -> (r: String)
    ensures
        r@ == stripped(xml@),
{
    replace_all(UNSUPPORTED_ELEMENTS, xml, NOTHING)
}

/// Serialized XML made a namespaced BPMN document: the first `definitions`
/// opening gets the namespace declarations, model tags the `bpmn` prefix,
/// diagram tags `bpmndi`, bounds `dc`, waypoints `di`, and the XML
/// declaration goes in front on a line of its own.
pub open spec fn with_namespaces(xml: Seq<char>) -> Seq<char> {
    let a = rewrite_first(DEFINITIONS_OPEN@, xml, DEFINITIONS_WITH_NAMESPACES@);
    let b = rewrite_all(MODEL_TAGS@, a, MODEL_PREFIXED@);
    let c = rewrite_all(DIAGRAM_TAGS@, b, DIAGRAM_PREFIXED@);
    let d = rewrite_all(BOUNDS_TAGS@, c, BOUNDS_PREFIXED@);
    let e = rewrite_all(WAYPOINT_TAGS@, d, WAYPOINT_PREFIXED@);
    XML_DECLARATION@ + "\n"@ + e
}

/// Give serialized XML its BPMN namespaces and XML declaration.
pub fn apply_bpmn_namespaces(xml: &str) -> (r: String)
    ensures
        r@ == with_namespaces(xml@),
{
    let a = replace_first(DEFINITIONS_OPEN, xml, DEFINITIONS_WITH_NAMESPACES);
    let b = replace_all(MODEL_TAGS, a.as_str(), MODEL_PREFIXED);
    let c = replace_all(DIAGRAM_TAGS, b.as_str(), DIAGRAM_PREFIXED);
    let d = replace_all(BOUNDS_TAGS, c.as_str(), BOUNDS_PREFIXED);
    let e = replace_all(WAYPOINT_TAGS, d.as_str(), WAYPOINT_PREFIXED);
    let mut r = String::from_str(XML_DECLARATION);
    r.append("\n");
    r.append(e.as_str());
    r
}

impl EndEvent {
    /// Structural check of an end event read from a BPMN document: it must
    /// have an id.
    pub fn validate(&self) -> (r: Result<(), String>)
        ensures
            self.id@.len() == 0 ==> (r matches Err(m) && m@ == "EndEvent must have an id"@),
            self.id@.len() > 0 ==> r is Ok,
    {
        if self.id.as_str().unicode_len() == 0 {
            return Err(String::from_str("EndEvent must have an id"));
        }
        Ok(())
    }
}

} // verus!
