//! BPMN document types as the BPMN <-> MDX transpiler reads them: the
//! process with every supported element kind, the diagram interchange
//! section, and the metadata written into MDX frontmatter.

use vstd::prelude::*;
use crate::bpmn::types::{
    Documentation, EndEvent, EndEventModel, ExclusiveGateway, ExclusiveGatewayModel, ParallelGateway,
    ParallelGatewayModel, ScriptTask, ScriptTaskModel, SequenceFlow, SequenceFlowModel, ServiceTask,
    ServiceTaskModel, StartEvent, StartEventModel, Task, TaskModel,
};
use crate::text::{copy_opt, copy_string, copy_vec, Duplicate};

verus! {

/// Position and size of a diagram element.
pub struct Bounds {
    pub x: String,
    pub y: String,
    pub width: String,
    pub height: String,
}

/// Abstract value of a [`Bounds`].
#[verifier::ext_equal]
pub struct BoundsModel {
    pub x: Seq<char>,
    pub y: Seq<char>,
    pub width: Seq<char>,
    pub height: Seq<char>,
}

impl View for Bounds {
    type V = BoundsModel;

    open spec fn view(&self) -> BoundsModel {
        BoundsModel {
            x: self.x@,
            y: self.y@,
            width: self.width@,
            height: self.height@,
        }
    }
}

impl DeepView for Bounds {
    type V = BoundsModel;

    open spec fn deep_view(&self) -> BoundsModel {
        self@
    }
}

impl Clone for Bounds {
    fn clone(&self) -> (r: Self)
        ensures
            r@ == self@,
    {
        Bounds {
            x: copy_string(&self.x),
            y: copy_string(&self.y),
            width: copy_string(&self.width),
            height: copy_string(&self.height),
        }
    }
}

impl Duplicate for Bounds {
    fn duplicate(&self) -> (r: Self) {
        self.clone()
    }
}

/// A point an edge passes through.
pub struct Waypoint {
    pub x: String,
    pub y: String,
}

/// Abstract value of a [`Waypoint`].
#[verifier::ext_equal]
pub struct WaypointModel {
    pub x: Seq<char>,
    pub y: Seq<char>,
}

impl View for Waypoint {
    type V = WaypointModel;

    open spec fn view(&self) -> WaypointModel {
        WaypointModel {
            x: self.x@,
            y: self.y@,
        }
    }
}

impl DeepView for Waypoint {
    type V = WaypointModel;

    open spec fn deep_view(&self) -> WaypointModel {
        self@
    }
}

impl Clone for Waypoint {
    fn clone(&self) -> (r: Self)
        ensures
            r@ == self@,
    {
        Waypoint {
            x: copy_string(&self.x),
            y: copy_string(&self.y),
        }
    }
}

impl Duplicate for Waypoint {
    fn duplicate(&self) -> (r: Self) {
        self.clone()
    }
}

/// Label of a diagram element.
pub struct BPMNLabel {
    pub bounds: Bounds,
}

/// Abstract value of a [`BPMNLabel`].
#[verifier::ext_equal]
pub struct BPMNLabelModel {
    pub bounds: BoundsModel,
}

impl View for BPMNLabel {
    type V = BPMNLabelModel;

    open spec fn view(&self) -> BPMNLabelModel {
        BPMNLabelModel {
            bounds: self.bounds@,
        }
    }
}

impl DeepView for BPMNLabel {
    type V = BPMNLabelModel;

    open spec fn deep_view(&self) -> BPMNLabelModel {
        self@
    }
}

impl Clone for BPMNLabel {
    fn clone(&self) -> (r: Self)
        ensures
            r@ == self@,
    {
        BPMNLabel {
            bounds: self.bounds.clone(),
        }
    }
}

impl Duplicate for BPMNLabel {
    fn duplicate(&self) -> (r: Self) {
        self.clone()
    }
}

/// Diagram shape of a flow node.
pub struct BPMNShape {
    pub id: String,
    pub bpmn_element: String,
    pub is_marker_visible: Option<bool>,
    pub bounds: Bounds,
    pub label: Option<BPMNLabel>,
}

/// Abstract value of a [`BPMNShape`].
#[verifier::ext_equal]
pub struct BPMNShapeModel {
    pub id: Seq<char>,
    pub bpmn_element: Seq<char>,
    pub is_marker_visible: Option<bool>,
    pub bounds: BoundsModel,
    pub label: Option<BPMNLabelModel>,
}

impl View for BPMNShape {
    type V = BPMNShapeModel;

    open spec fn view(&self) -> BPMNShapeModel {
        BPMNShapeModel {
            id: self.id@,
            bpmn_element: self.bpmn_element@,
            is_marker_visible: self.is_marker_visible,
            bounds: self.bounds@,
            label: self.label.deep_view(),
        }
    }
}

impl DeepView for BPMNShape {
    type V = BPMNShapeModel;

    open spec fn deep_view(&self) -> BPMNShapeModel {
        self@
    }
}

impl Clone for BPMNShape {
    fn clone(&self) -> (r: Self)
        ensures
            r@ == self@,
    {
        BPMNShape {
            id: copy_string(&self.id),
            bpmn_element: copy_string(&self.bpmn_element),
            is_marker_visible: self.is_marker_visible,
            bounds: self.bounds.clone(),
            label: copy_opt(&self.label),
        }
    }
}

impl Duplicate for BPMNShape {
    fn duplicate(&self) -> (r: Self) {
        self.clone()
    }
}

/// Diagram edge of a sequence flow.
pub struct BPMNEdge {
    pub id: String,
    pub bpmn_element: String,
    pub waypoints: Vec<Waypoint>,
    pub label: Option<BPMNLabel>,
}

/// Abstract value of a [`BPMNEdge`].
#[verifier::ext_equal]
pub struct BPMNEdgeModel {
    pub id: Seq<char>,
    pub bpmn_element: Seq<char>,
    pub waypoints: Seq<WaypointModel>,
    pub label: Option<BPMNLabelModel>,
}

impl View for BPMNEdge {
    type V = BPMNEdgeModel;

    open spec fn view(&self) -> BPMNEdgeModel {
        BPMNEdgeModel {
            id: self.id@,
            bpmn_element: self.bpmn_element@,
            waypoints: self.waypoints.deep_view(),
            label: self.label.deep_view(),
        }
    }
}

impl DeepView for BPMNEdge {
    type V = BPMNEdgeModel;

    open spec fn deep_view(&self) -> BPMNEdgeModel {
        self@
    }
}

impl Clone for BPMNEdge {
    fn clone(&self) -> (r: Self)
        ensures
            r@ == self@,
    {
        BPMNEdge {
            id: copy_string(&self.id),
            bpmn_element: copy_string(&self.bpmn_element),
            waypoints: copy_vec(&self.waypoints),
            label: copy_opt(&self.label),
        }
    }
}

impl Duplicate for BPMNEdge {
    fn duplicate(&self) -> (r: Self) {
        self.clone()
    }
}

/// Diagram plane holding the shapes and edges of a process.
pub struct BPMNPlane {
    pub id: String,
    pub bpmn_element: String,
    pub shapes: Vec<BPMNShape>,
    pub edges: Vec<BPMNEdge>,
}

/// Abstract value of a [`BPMNPlane`].
#[verifier::ext_equal]
pub struct BPMNPlaneModel {
    pub id: Seq<char>,
    pub bpmn_element: Seq<char>,
    pub shapes: Seq<BPMNShapeModel>,
    pub edges: Seq<BPMNEdgeModel>,
}

impl View for BPMNPlane {
    type V = BPMNPlaneModel;

    open spec fn view(&self) -> BPMNPlaneModel {
        BPMNPlaneModel {
            id: self.id@,
            bpmn_element: self.bpmn_element@,
            shapes: self.shapes.deep_view(),
            edges: self.edges.deep_view(),
        }
    }
}

impl DeepView for BPMNPlane {
    type V = BPMNPlaneModel;

    open spec fn deep_view(&self) -> BPMNPlaneModel {
        self@
    }
}

impl Clone for BPMNPlane {
    fn clone(&self) -> (r: Self)
        ensures
            r@ == self@,
    {
        BPMNPlane {
            id: copy_string(&self.id),
            bpmn_element: copy_string(&self.bpmn_element),
            shapes: copy_vec(&self.shapes),
            edges: copy_vec(&self.edges),
        }
    }
}

impl Duplicate for BPMNPlane {
    fn duplicate(&self) -> (r: Self) {
        self.clone()
    }
}

/// BPMN diagram interchange section.
pub struct BPMNDiagram {
    pub id: String,
    pub plane: BPMNPlane,
}

/// Abstract value of a [`BPMNDiagram`].
#[verifier::ext_equal]
pub struct BPMNDiagramModel {
    pub id: Seq<char>,
    pub plane: BPMNPlaneModel,
}

impl View for BPMNDiagram {
    type V = BPMNDiagramModel;

    open spec fn view(&self) -> BPMNDiagramModel {
        BPMNDiagramModel {
            id: self.id@,
            plane: self.plane@,
        }
    }
}

impl DeepView for BPMNDiagram {
    type V = BPMNDiagramModel;

    open spec fn deep_view(&self) -> BPMNDiagramModel {
        self@
    }
}

impl Clone for BPMNDiagram {
    fn clone(&self) -> (r: Self)
        ensures
            r@ == self@,
    {
        BPMNDiagram {
            id: copy_string(&self.id),
            plane: self.plane.clone(),
        }
    }
}

impl Duplicate for BPMNDiagram {
    fn duplicate(&self) -> (r: Self) {
        self.clone()
    }
}

/// BPMN manual task.
pub struct ManualTask {
    pub id: String,
    pub name: Option<String>,
    pub incoming: Vec<String>,
    pub outgoing: Vec<String>,
    pub documentation: Option<Documentation>,
}

/// Abstract value of a [`ManualTask`].
#[verifier::ext_equal]
pub struct ManualTaskModel {
    pub id: Seq<char>,
    pub name: Option<Seq<char>>,
    pub incoming: Seq<Seq<char>>,
    pub outgoing: Seq<Seq<char>>,
    pub documentation: Option<Seq<char>>,
}

impl View for ManualTask {
    type V = ManualTaskModel;

    open spec fn view(&self) -> ManualTaskModel {
        ManualTaskModel {
            id: self.id@,
            name: self.name.deep_view(),
            incoming: self.incoming.deep_view(),
            outgoing: self.outgoing.deep_view(),
            documentation: self.documentation.deep_view(),
        }
    }
}

impl DeepView for ManualTask {
    type V = ManualTaskModel;

    open spec fn deep_view(&self) -> ManualTaskModel {
        self@
    }
}

impl Clone for ManualTask {
    fn clone(&self) -> (r: Self)
        ensures
            r@ == self@,
    {
        ManualTask {
            id: copy_string(&self.id),
            name: copy_opt(&self.name),
            incoming: copy_vec(&self.incoming),
            outgoing: copy_vec(&self.outgoing),
            documentation: copy_opt(&self.documentation),
        }
    }
}

impl Duplicate for ManualTask {
    fn duplicate(&self) -> (r: Self) {
        self.clone()
    }
}

/// BPMN user task.
pub struct UserTask {
    pub id: String,
    pub name: Option<String>,
    pub incoming: Vec<String>,
    pub outgoing: Vec<String>,
    pub documentation: Option<Documentation>,
}

/// Abstract value of a [`UserTask`].
#[verifier::ext_equal]
pub struct UserTaskModel {
    pub id: Seq<char>,
    pub name: Option<Seq<char>>,
    pub incoming: Seq<Seq<char>>,
    pub outgoing: Seq<Seq<char>>,
    pub documentation: Option<Seq<char>>,
}

impl View for UserTask {
    type V = UserTaskModel;

    open spec fn view(&self) -> UserTaskModel {
        UserTaskModel {
            id: self.id@,
            name: self.name.deep_view(),
            incoming: self.incoming.deep_view(),
            outgoing: self.outgoing.deep_view(),
            documentation: self.documentation.deep_view(),
        }
    }
}

impl DeepView for UserTask {
    type V = UserTaskModel;

    open spec fn deep_view(&self) -> UserTaskModel {
        self@
    }
}

impl Clone for UserTask {
    fn clone(&self) -> (r: Self)
        ensures
            r@ == self@,
    {
        UserTask {
            id: copy_string(&self.id),
            name: copy_opt(&self.name),
            incoming: copy_vec(&self.incoming),
            outgoing: copy_vec(&self.outgoing),
            documentation: copy_opt(&self.documentation),
        }
    }
}

impl Duplicate for UserTask {
    fn duplicate(&self) -> (r: Self) {
        self.clone()
    }
}

/// BPMN process with its flow elements, as read from a document with a diagram.
pub struct Process {
    pub id: String,
    pub name: Option<String>,
    pub is_executable: Option<bool>,
    pub is_closed: Option<bool>,
    pub process_type: Option<String>,
    pub documentation: Option<Documentation>,
    pub start_events: Vec<StartEvent>,
    pub end_events: Vec<EndEvent>,
    pub tasks: Vec<Task>,
    pub manual_tasks: Vec<ManualTask>,
    pub user_tasks: Vec<UserTask>,
    pub service_tasks: Vec<ServiceTask>,
    pub script_tasks: Vec<ScriptTask>,
    pub exclusive_gateways: Vec<ExclusiveGateway>,
    pub parallel_gateways: Vec<ParallelGateway>,
    pub sequence_flows: Vec<SequenceFlow>,
}

/// Abstract value of a [`Process`].
#[verifier::ext_equal]
pub struct ProcessModel {
    pub id: Seq<char>,
    pub name: Option<Seq<char>>,
    pub is_executable: Option<bool>,
    pub is_closed: Option<bool>,
    pub process_type: Option<Seq<char>>,
    pub documentation: Option<Seq<char>>,
    pub start_events: Seq<StartEventModel>,
    pub end_events: Seq<EndEventModel>,
    pub tasks: Seq<TaskModel>,
    pub manual_tasks: Seq<ManualTaskModel>,
    pub user_tasks: Seq<UserTaskModel>,
    pub service_tasks: Seq<ServiceTaskModel>,
    pub script_tasks: Seq<ScriptTaskModel>,
    pub exclusive_gateways: Seq<ExclusiveGatewayModel>,
    pub parallel_gateways: Seq<ParallelGatewayModel>,
    pub sequence_flows: Seq<SequenceFlowModel>,
}

impl View for Process {
    type V = ProcessModel;

    open spec fn view(&self) -> ProcessModel {
        ProcessModel {
            id: self.id@,
            name: self.name.deep_view(),
            is_executable: self.is_executable,
            is_closed: self.is_closed,
            process_type: self.process_type.deep_view(),
            documentation: self.documentation.deep_view(),
            start_events: self.start_events.deep_view(),
            end_events: self.end_events.deep_view(),
            tasks: self.tasks.deep_view(),
            manual_tasks: self.manual_tasks.deep_view(),
            user_tasks: self.user_tasks.deep_view(),
            service_tasks: self.service_tasks.deep_view(),
            script_tasks: self.script_tasks.deep_view(),
            exclusive_gateways: self.exclusive_gateways.deep_view(),
            parallel_gateways: self.parallel_gateways.deep_view(),
            sequence_flows: self.sequence_flows.deep_view(),
        }
    }
}

impl DeepView for Process {
    type V = ProcessModel;

    open spec fn deep_view(&self) -> ProcessModel {
        self@
    }
}

impl Clone for Process {
    fn clone(&self) -> (r: Self)
        ensures
            r@ == self@,
    {
        Process {
            id: copy_string(&self.id),
            name: copy_opt(&self.name),
            is_executable: self.is_executable,
            is_closed: self.is_closed,
            process_type: copy_opt(&self.process_type),
            documentation: copy_opt(&self.documentation),
            start_events: copy_vec(&self.start_events),
            end_events: copy_vec(&self.end_events),
            tasks: copy_vec(&self.tasks),
            manual_tasks: copy_vec(&self.manual_tasks),
            user_tasks: copy_vec(&self.user_tasks),
            service_tasks: copy_vec(&self.service_tasks),
            script_tasks: copy_vec(&self.script_tasks),
            exclusive_gateways: copy_vec(&self.exclusive_gateways),
            parallel_gateways: copy_vec(&self.parallel_gateways),
            sequence_flows: copy_vec(&self.sequence_flows),
        }
    }
}

impl Duplicate for Process {
    fn duplicate(&self) -> (r: Self) {
        self.clone()
    }
}

/// Root element of a BPMN document, diagram included.
pub struct Definitions {
    pub id: String,
    pub name: Option<String>,
    pub target_namespace: Option<String>,
    pub exporter: Option<String>,
    pub exporter_version: Option<String>,
    pub process: Option<Process>,
    pub bpmn_diagram: Option<BPMNDiagram>,
}

/// Abstract value of a [`Definitions`].
#[verifier::ext_equal]
pub struct DefinitionsModel {
    pub id: Seq<char>,
    pub name: Option<Seq<char>>,
    pub target_namespace: Option<Seq<char>>,
    pub exporter: Option<Seq<char>>,
    pub exporter_version: Option<Seq<char>>,
    pub process: Option<ProcessModel>,
    pub bpmn_diagram: Option<BPMNDiagramModel>,
}

impl View for Definitions {
    type V = DefinitionsModel;

    open spec fn view(&self) -> DefinitionsModel {
        DefinitionsModel {
            id: self.id@,
            name: self.name.deep_view(),
            target_namespace: self.target_namespace.deep_view(),
            exporter: self.exporter.deep_view(),
            exporter_version: self.exporter_version.deep_view(),
            process: self.process.deep_view(),
            bpmn_diagram: self.bpmn_diagram.deep_view(),
        }
    }
}

impl DeepView for Definitions {
    type V = DefinitionsModel;

    open spec fn deep_view(&self) -> DefinitionsModel {
        self@
    }
}

impl Clone for Definitions {
    fn clone(&self) -> (r: Self)
        ensures
            r@ == self@,
    {
        Definitions {
            id: copy_string(&self.id),
            name: copy_opt(&self.name),
            target_namespace: copy_opt(&self.target_namespace),
            exporter: copy_opt(&self.exporter),
            exporter_version: copy_opt(&self.exporter_version),
            process: copy_opt(&self.process),
            bpmn_diagram: copy_opt(&self.bpmn_diagram),
        }
    }
}

impl Duplicate for Definitions {
    fn duplicate(&self) -> (r: Self) {
        self.clone()
    }
}

/// Bounds as written in MDX diagram frontmatter.
pub struct BoundsEntry {
    pub x: String,
    pub y: String,
    pub width: String,
    pub height: String,
}

/// Abstract value of a [`BoundsEntry`].
#[verifier::ext_equal]
pub struct BoundsEntryModel {
    pub x: Seq<char>,
    pub y: Seq<char>,
    pub width: Seq<char>,
    pub height: Seq<char>,
}

impl View for BoundsEntry {
    type V = BoundsEntryModel;

    open spec fn view(&self) -> BoundsEntryModel {
        BoundsEntryModel {
            x: self.x@,
            y: self.y@,
            width: self.width@,
            height: self.height@,
        }
    }
}

impl DeepView for BoundsEntry {
    type V = BoundsEntryModel;

    open spec fn deep_view(&self) -> BoundsEntryModel {
        self@
    }
}

impl Clone for BoundsEntry {
    fn clone(&self) -> (r: Self)
        ensures
            r@ == self@,
    {
        BoundsEntry {
            x: copy_string(&self.x),
            y: copy_string(&self.y),
            width: copy_string(&self.width),
            height: copy_string(&self.height),
        }
    }
}

impl Duplicate for BoundsEntry {
    fn duplicate(&self) -> (r: Self) {
        self.clone()
    }
}

/// Label bounds as written in MDX diagram frontmatter.
pub struct DiagramLabel {
    pub bounds: BoundsEntry,
}

/// Abstract value of a [`DiagramLabel`].
#[verifier::ext_equal]
pub struct DiagramLabelModel {
    pub bounds: BoundsEntryModel,
}

impl View for DiagramLabel {
    type V = DiagramLabelModel;

    open spec fn view(&self) -> DiagramLabelModel {
        DiagramLabelModel {
            bounds: self.bounds@,
        }
    }
}

impl DeepView for DiagramLabel {
    type V = DiagramLabelModel;

    open spec fn deep_view(&self) -> DiagramLabelModel {
        self@
    }
}

impl Clone for DiagramLabel {
    fn clone(&self) -> (r: Self)
        ensures
            r@ == self@,
    {
        DiagramLabel {
            bounds: self.bounds.clone(),
        }
    }
}

impl Duplicate for DiagramLabel {
    fn duplicate(&self) -> (r: Self) {
        self.clone()
    }
}

/// Waypoint as written in MDX diagram frontmatter.
pub struct WaypointEntry {
    pub x: String,
    pub y: String,
}

/// Abstract value of a [`WaypointEntry`].
#[verifier::ext_equal]
pub struct WaypointEntryModel {
    pub x: Seq<char>,
    pub y: Seq<char>,
}

impl View for WaypointEntry {
    type V = WaypointEntryModel;

    open spec fn view(&self) -> WaypointEntryModel {
        WaypointEntryModel {
            x: self.x@,
            y: self.y@,
        }
    }
}

impl DeepView for WaypointEntry {
    type V = WaypointEntryModel;

    open spec fn deep_view(&self) -> WaypointEntryModel {
        self@
    }
}

impl Clone for WaypointEntry {
    fn clone(&self) -> (r: Self)
        ensures
            r@ == self@,
    {
        WaypointEntry {
            x: copy_string(&self.x),
            y: copy_string(&self.y),
        }
    }
}

impl Duplicate for WaypointEntry {
    fn duplicate(&self) -> (r: Self) {
        self.clone()
    }
}

/// Diagram information of one flow element, as written in its MDX frontmatter.
pub struct DiagramEntry {
    pub id: String,
    pub is_marker_visible: Option<bool>,
    pub bounds: Option<BoundsEntry>,
    pub label: Option<DiagramLabel>,
    pub waypoints: Option<Vec<WaypointEntry>>,
}

/// Abstract value of a [`DiagramEntry`].
#[verifier::ext_equal]
pub struct DiagramEntryModel {
    pub id: Seq<char>,
    pub is_marker_visible: Option<bool>,
    pub bounds: Option<BoundsEntryModel>,
    pub label: Option<DiagramLabelModel>,
    pub waypoints: Option<Seq<WaypointEntryModel>>,
}

impl View for DiagramEntry {
    type V = DiagramEntryModel;

    open spec fn view(&self) -> DiagramEntryModel {
        DiagramEntryModel {
            id: self.id@,
            is_marker_visible: self.is_marker_visible,
            bounds: self.bounds.deep_view(),
            label: self.label.deep_view(),
            waypoints: self.waypoints.deep_view(),
        }
    }
}

impl DeepView for DiagramEntry {
    type V = DiagramEntryModel;

    open spec fn deep_view(&self) -> DiagramEntryModel {
        self@
    }
}

impl Clone for DiagramEntry {
    fn clone(&self) -> (r: Self)
        ensures
            r@ == self@,
    {
        DiagramEntry {
            id: copy_string(&self.id),
            is_marker_visible: self.is_marker_visible,
            bounds: copy_opt(&self.bounds),
            label: copy_opt(&self.label),
            waypoints: copy_opt(&self.waypoints),
        }
    }
}

impl Duplicate for DiagramEntry {
    fn duplicate(&self) -> (r: Self) {
        self.clone()
    }
}

/// Document attributes kept in the process MDX file.
pub struct DefinitionsMetadata {
    pub id: String,
    pub name: Option<String>,
    pub target_namespace: Option<String>,
    pub exporter: Option<String>,
    pub exporter_version: Option<String>,
}

/// Abstract value of a [`DefinitionsMetadata`].
#[verifier::ext_equal]
pub struct DefinitionsMetadataModel {
    pub id: Seq<char>,
    pub name: Option<Seq<char>>,
    pub target_namespace: Option<Seq<char>>,
    pub exporter: Option<Seq<char>>,
    pub exporter_version: Option<Seq<char>>,
}

impl View for DefinitionsMetadata {
    type V = DefinitionsMetadataModel;

    open spec fn view(&self) -> DefinitionsMetadataModel {
        DefinitionsMetadataModel {
            id: self.id@,
            name: self.name.deep_view(),
            target_namespace: self.target_namespace.deep_view(),
            exporter: self.exporter.deep_view(),
            exporter_version: self.exporter_version.deep_view(),
        }
    }
}

impl DeepView for DefinitionsMetadata {
    type V = DefinitionsMetadataModel;

    open spec fn deep_view(&self) -> DefinitionsMetadataModel {
        self@
    }
}

impl Clone for DefinitionsMetadata {
    fn clone(&self) -> (r: Self)
        ensures
            r@ == self@,
    {
        DefinitionsMetadata {
            id: copy_string(&self.id),
            name: copy_opt(&self.name),
            target_namespace: copy_opt(&self.target_namespace),
            exporter: copy_opt(&self.exporter),
            exporter_version: copy_opt(&self.exporter_version),
        }
    }
}

impl Duplicate for DefinitionsMetadata {
    fn duplicate(&self) -> (r: Self) {
        self.clone()
    }
}

/// Diagram plane reference kept in the process MDX file.
pub struct ProcessPlaneMetadata {
    pub id: String,
    pub bpmn_element: String,
}

/// Abstract value of a [`ProcessPlaneMetadata`].
#[verifier::ext_equal]
pub struct ProcessPlaneMetadataModel {
    pub id: Seq<char>,
    pub bpmn_element: Seq<char>,
}

impl View for ProcessPlaneMetadata {
    type V = ProcessPlaneMetadataModel;

    open spec fn view(&self) -> ProcessPlaneMetadataModel {
        ProcessPlaneMetadataModel {
            id: self.id@,
            bpmn_element: self.bpmn_element@,
        }
    }
}

impl DeepView for ProcessPlaneMetadata {
    type V = ProcessPlaneMetadataModel;

    open spec fn deep_view(&self) -> ProcessPlaneMetadataModel {
        self@
    }
}

impl Clone for ProcessPlaneMetadata {
    fn clone(&self) -> (r: Self)
        ensures
            r@ == self@,
    {
        ProcessPlaneMetadata {
            id: copy_string(&self.id),
            bpmn_element: copy_string(&self.bpmn_element),
        }
    }
}

impl Duplicate for ProcessPlaneMetadata {
    fn duplicate(&self) -> (r: Self) {
        self.clone()
    }
}

/// Diagram reference kept in the process MDX file.
pub struct ProcessDiagramMetadata {
    pub id: String,
    pub plane: ProcessPlaneMetadata,
}

/// Abstract value of a [`ProcessDiagramMetadata`].
#[verifier::ext_equal]
pub struct ProcessDiagramMetadataModel {
    pub id: Seq<char>,
    pub plane: ProcessPlaneMetadataModel,
}

impl View for ProcessDiagramMetadata {
    type V = ProcessDiagramMetadataModel;

    open spec fn view(&self) -> ProcessDiagramMetadataModel {
        ProcessDiagramMetadataModel {
            id: self.id@,
            plane: self.plane@,
        }
    }
}

impl DeepView for ProcessDiagramMetadata {
    type V = ProcessDiagramMetadataModel;

    open spec fn deep_view(&self) -> ProcessDiagramMetadataModel {
        self@
    }
}

impl Clone for ProcessDiagramMetadata {
    fn clone(&self) -> (r: Self)
        ensures
            r@ == self@,
    {
        ProcessDiagramMetadata {
            id: copy_string(&self.id),
            plane: self.plane.clone(),
        }
    }
}

impl Duplicate for ProcessDiagramMetadata {
    fn duplicate(&self) -> (r: Self) {
        self.clone()
    }
}

/// Frontmatter of the process MDX file.
pub struct ProcessMetadata {
    pub id: String,
    pub name: Option<String>,
    pub is_executable: Option<bool>,
    pub is_closed: Option<bool>,
    pub process_type: Option<String>,
    pub documentation: Option<Documentation>,
    pub definitions: DefinitionsMetadata,
    pub diagram: Option<ProcessDiagramMetadata>,
}

/// Abstract value of a [`ProcessMetadata`].
#[verifier::ext_equal]
pub struct ProcessMetadataModel {
    pub id: Seq<char>,
    pub name: Option<Seq<char>>,
    pub is_executable: Option<bool>,
    pub is_closed: Option<bool>,
    pub process_type: Option<Seq<char>>,
    pub documentation: Option<Seq<char>>,
    pub definitions: DefinitionsMetadataModel,
    pub diagram: Option<ProcessDiagramMetadataModel>,
}

impl View for ProcessMetadata {
    type V = ProcessMetadataModel;

    open spec fn view(&self) -> ProcessMetadataModel {
        ProcessMetadataModel {
            id: self.id@,
            name: self.name.deep_view(),
            is_executable: self.is_executable,
            is_closed: self.is_closed,
            process_type: self.process_type.deep_view(),
            documentation: self.documentation.deep_view(),
            definitions: self.definitions@,
            diagram: self.diagram.deep_view(),
        }
    }
}

impl DeepView for ProcessMetadata {
    type V = ProcessMetadataModel;

    open spec fn deep_view(&self) -> ProcessMetadataModel {
        self@
    }
}

impl Clone for ProcessMetadata {
    fn clone(&self) -> (r: Self)
        ensures
            r@ == self@,
    {
        ProcessMetadata {
            id: copy_string(&self.id),
            name: copy_opt(&self.name),
            is_executable: self.is_executable,
            is_closed: self.is_closed,
            process_type: copy_opt(&self.process_type),
            documentation: copy_opt(&self.documentation),
            definitions: self.definitions.clone(),
            diagram: copy_opt(&self.diagram),
        }
    }
}

impl Duplicate for ProcessMetadata {
    fn duplicate(&self) -> (r: Self) {
        self.clone()
    }
}

} // verus!
