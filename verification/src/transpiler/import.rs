//! Import: a BPMN document into MDX files, one per flow element plus one
//! for the process.
//!
//! Each file is a frontmatter block: a `type:` line naming the BPMN element
//! type, the element's YAML, and, where the diagram section has a shape or
//! an edge for the element, its diagram information under `diagram:`.
//! Turning a value into YAML text is the caller's part (see
//! [`SerializedEntry`]); everything else is done here.

use vstd::prelude::*;
use crate::bpmn::types::{
    ConditionExpression, ConditionExpressionModel, EndEvent, EndEventModel, ExclusiveGateway,
    ExclusiveGatewayModel, ParallelGateway, ParallelGatewayModel, ScriptTask, ScriptTaskModel,
    SequenceFlow, SequenceFlowModel, ServiceTask, ServiceTaskModel, StartEvent, StartEventModel, Task,
    TaskModel,
};
use crate::patterns::{replace_all, rewrite_all};
use crate::text::{
    copy_opt, copy_string, join_lines, lemma_line_end_exact, line_end, strip_cr, text_lines, to_chars,
    Duplicate,
};
use crate::transpiler::types::{
    BPMNEdge, BPMNEdgeModel, BPMNLabel, BPMNLabelModel, BPMNShape, BPMNShapeModel, Bounds, BoundsEntry,
    BoundsEntryModel, BoundsModel, DefinitionsMetadata, DefinitionsMetadataModel, Definitions,
    DefinitionsModel, DiagramEntry, DiagramEntryModel, DiagramLabel, DiagramLabelModel, ManualTask,
    ManualTaskModel, Process, ProcessDiagramMetadata, ProcessDiagramMetadataModel, ProcessMetadata,
    ProcessMetadataModel, ProcessModel, ProcessPlaneMetadata, ProcessPlaneMetadataModel, UserTask,
    UserTaskModel, WaypointEntry, WaypointEntryModel, WaypointModel,
};

verus! {

/// One MDX file produced by the import.
pub struct MdxOutput {
    /// File name (e.g. "start_1.mdx").
    pub filename: String,
    /// Full MDX content, frontmatter included.
    pub content: String,
}

/// Abstract value of an [`MdxOutput`].
pub struct MdxOutputModel {
    pub filename: Seq<char>,
    pub content: Seq<char>,
}

impl View for MdxOutput {
    type V = MdxOutputModel;

    open spec fn view(&self) -> MdxOutputModel {
        MdxOutputModel { filename: self.filename@, content: self.content@ }
    }
}

impl DeepView for MdxOutput {
    type V = MdxOutputModel;

    open spec fn deep_view(&self) -> MdxOutputModel {
        self@
    }
}

/// Why an import failed.
pub enum ImportError {
    /// The document has no process.
    NoProcess,
    /// A value could not be written as YAML.
    SerializationError(String),
}

/// Abstract value of an [`ImportError`].
pub enum ImportErrorModel {
    NoProcess,
    SerializationError(Seq<char>),
}

impl View for ImportError {
    type V = ImportErrorModel;

    open spec fn view(&self) -> ImportErrorModel {
        match self {
            ImportError::NoProcess => ImportErrorModel::NoProcess,
            ImportError::SerializationError(m) => ImportErrorModel::SerializationError(m@),
        }
    }
}

/// The human-readable text of an import error.
pub open spec fn import_error_text(e: ImportErrorModel) -> Seq<char> {
    match e {
        ImportErrorModel::NoProcess => "No process found in BPMN definitions"@,
        ImportErrorModel::SerializationError(m) => "Serialization error: "@ + m,
    }
}

impl ImportError {
    /// The human-readable text of the error.
    pub fn message(&self) -> (r: String)
        ensures
            r@ == import_error_text(self@),
    {
        let r = match self {
            ImportError::NoProcess => String::from_str("No process found in BPMN definitions"),
            ImportError::SerializationError(m) => {
                let mut r = String::from_str("Serialization error: ");
                r.append(m.as_str());
                r
            },
        };
        assert(r@ == import_error_text(self@));
        r
    }
}

/// Diagram bounds as frontmatter bounds.
pub open spec fn bounds_entry(b: BoundsModel) -> BoundsEntryModel {
    BoundsEntryModel { x: b.x, y: b.y, width: b.width, height: b.height }
}

/// A diagram label as a frontmatter label.
pub open spec fn label_entry(l: Option<BPMNLabelModel>) -> Option<DiagramLabelModel> {
    match l {
        Some(l) => Some(DiagramLabelModel { bounds: bounds_entry(l.bounds) }),
        None => None,
    }
}

/// The frontmatter diagram entry of a shape: its id, marker flag, bounds
/// and label; no waypoints.
pub open spec fn shape_entry(s: BPMNShapeModel) -> DiagramEntryModel {
    DiagramEntryModel {
        id: s.id,
        is_marker_visible: s.is_marker_visible,
        bounds: Some(bounds_entry(s.bounds)),
        label: label_entry(s.label),
        waypoints: None,
    }
}

/// The frontmatter diagram entry of an edge: its id, label and waypoints;
/// no marker flag and no bounds.
pub open spec fn edge_entry(e: BPMNEdgeModel) -> DiagramEntryModel {
    DiagramEntryModel {
        id: e.id,
        is_marker_visible: None,
        bounds: None,
        label: label_entry(e.label),
        waypoints: Some(e.waypoints.map_values(|w: WaypointModel| waypoint_entry(w))),
    }
}

/// A diagram waypoint as a frontmatter waypoint.
pub open spec fn waypoint_entry(w: WaypointModel) -> WaypointEntryModel {
    WaypointEntryModel { x: w.x, y: w.y }
}

fn bounds_to_entry(b: &Bounds) -> (r: BoundsEntry)
    ensures
        r@ == bounds_entry(b@),
{
    BoundsEntry {
        x: copy_string(&b.x),
        y: copy_string(&b.y),
        width: copy_string(&b.width),
        height: copy_string(&b.height),
    }
}

fn label_to_entry(l: &Option<BPMNLabel>) -> (r: Option<DiagramLabel>)
    ensures
        r.deep_view() == label_entry(l.deep_view()),
{
    match l {
        Some(l) => Some(DiagramLabel { bounds: bounds_to_entry(&l.bounds) }),
        None => None,
    }
}

/// The frontmatter diagram entry of a shape.
pub fn shape_diagram(shape: &BPMNShape) -> (r: DiagramEntry)
    ensures
        r@ == shape_entry(shape@),
{
    let r = DiagramEntry {
        id: copy_string(&shape.id),
        is_marker_visible: shape.is_marker_visible,
        bounds: Some(bounds_to_entry(&shape.bounds)),
        label: label_to_entry(&shape.label),
        waypoints: None,
    };
    assert(r@ =~= shape_entry(shape@));
    r
}

/// The frontmatter diagram entry of an edge.
pub fn edge_diagram(edge: &BPMNEdge) -> (r: DiagramEntry)
    ensures
        r@ == edge_entry(edge@),
{
    let mut waypoints: Vec<WaypointEntry> = Vec::new();
    let mut i: usize = 0;
    while i < edge.waypoints.len()
        invariant
            i <= edge.waypoints.len(),
            waypoints.deep_view() == edge.waypoints.deep_view().take(i as int).map_values(|w: WaypointModel| waypoint_entry(w)),
        decreases edge.waypoints.len() - i,
    {
        let ghost before = waypoints.deep_view();
        let w = &edge.waypoints[i];
        assert(edge.waypoints.deep_view()[i as int] == w@);
        let e = WaypointEntry { x: copy_string(&w.x), y: copy_string(&w.y) };
        assert(e.deep_view() == waypoint_entry(w@));
        waypoints.push(e);
        assert(waypoints.deep_view() =~= before.push(waypoint_entry(edge.waypoints.deep_view()[i as int])));
        i = i + 1;
        assert(waypoints.deep_view() =~= edge.waypoints.deep_view().take(i as int).map_values(|w: WaypointModel| waypoint_entry(w)));
    }
    assert(edge.waypoints.deep_view().take(i as int) =~= edge.waypoints.deep_view());
    let r = DiagramEntry {
        id: copy_string(&edge.id),
        is_marker_visible: None,
        bounds: None,
        label: label_to_entry(&edge.label),
        waypoints: Some(waypoints),
    };
    assert(r@ =~= edge_entry(edge@));
    r
}

/// The last edge of `edges` drawn for the element `id`.
pub open spec fn last_edge_for(edges: Seq<BPMNEdgeModel>, id: Seq<char>) -> Option<BPMNEdgeModel>
    decreases edges.len(),
{
    if edges.len() == 0 {
        None
    } else if edges.last().bpmn_element == id {
        Some(edges.last())
    } else {
        last_edge_for(edges.drop_last(), id)
    }
}

/// The last shape of `shapes` drawn for the element `id`.
pub open spec fn last_shape_for(shapes: Seq<BPMNShapeModel>, id: Seq<char>) -> Option<BPMNShapeModel>
    decreases shapes.len(),
{
    if shapes.len() == 0 {
        None
    } else if shapes.last().bpmn_element == id {
        Some(shapes.last())
    } else {
        last_shape_for(shapes.drop_last(), id)
    }
}

/// The diagram information of the element `id`: that of the last edge
/// drawn for it, else that of the last shape drawn for it, else none. An
/// empty id has none (diagram elements that name no element are ignored).
pub open spec fn diagram_for(d: DefinitionsModel, id: Seq<char>) -> Option<DiagramEntryModel> {
    if id.len() == 0 {
        None
    } else {
        match d.bpmn_diagram {
            None => None,
            Some(dg) => match last_edge_for(dg.plane.edges, id) {
                Some(e) => Some(edge_entry(e)),
                None => match last_shape_for(dg.plane.shapes, id) {
                    Some(s) => Some(shape_entry(s)),
                    None => None,
                },
            },
        }
    }
}

/// The diagram information of the element `id` in `d`.
pub fn find_diagram(d: &Definitions, id: &String) -> (r: Option<DiagramEntry>)
    ensures
        r.deep_view() == diagram_for(d@, id@),
{
    if id.as_str().unicode_len() == 0 {
        return None;
    }
    match &d.bpmn_diagram {
        None => None,
        Some(dg) => {
            assert(d@.bpmn_diagram == Some(dg@));
            let edges = &dg.plane.edges;
            assert(dg@.plane.edges == edges.deep_view());
            assert(dg@.plane.shapes == dg.plane.shapes.deep_view());
            let mut i: usize = edges.len();
            assert(edges.deep_view().take(i as int) =~= edges.deep_view());
            while i > 0
                invariant
                    i <= edges.len(),
                    id@.len() > 0,
                    d@.bpmn_diagram == Some(dg@),
                    dg@.plane.edges == edges.deep_view(),
                    last_edge_for(edges.deep_view(), id@) == last_edge_for(
                        edges.deep_view().take(i as int),
                        id@,
                    ),
                decreases i,
            {
                let ghost t = edges.deep_view().take(i as int);
                assert(t.last() == edges.deep_view()[i - 1]);
                assert(edges.deep_view()[i - 1] == edges[i - 1]@);
                if edges[i - 1].bpmn_element.eq(id) {
                    assert(last_edge_for(t, id@) == Some(edges[i - 1]@));
                    assert(diagram_for(d@, id@) == Some(edge_entry(edges[i - 1]@)));
                    return Some(edge_diagram(&edges[i - 1]));
                }
                assert(t.drop_last() =~= edges.deep_view().take(i - 1));
                i = i - 1;
            }
            let shapes = &dg.plane.shapes;
            let mut j: usize = shapes.len();
            assert(shapes.deep_view().take(j as int) =~= shapes.deep_view());
            while j > 0
                invariant
                    j <= shapes.len(),
                    id@.len() > 0,
                    d@.bpmn_diagram == Some(dg@),
                    dg@.plane.shapes == shapes.deep_view(),
                    last_edge_for(dg.plane.edges.deep_view(), id@) is None,
                    last_shape_for(shapes.deep_view(), id@) == last_shape_for(
                        shapes.deep_view().take(j as int),
                        id@,
                    ),
                decreases j,
            {
                let ghost t = shapes.deep_view().take(j as int);
                assert(t.last() == shapes.deep_view()[j - 1]);
                assert(shapes.deep_view()[j - 1] == shapes[j - 1]@);
                if shapes[j - 1].bpmn_element.eq(id) {
                    assert(last_shape_for(t, id@) == Some(shapes[j - 1]@));
                    assert(diagram_for(d@, id@) == Some(shape_entry(shapes[j - 1]@)));
                    return Some(shape_diagram(&shapes[j - 1]));
                }
                assert(t.drop_last() =~= shapes.deep_view().take(j - 1));
                j = j - 1;
            }
            None
        },
    }
}

/// The expression type given to a flow condition that names none.
pub open spec fn formal_expression_type() -> Seq<char> {
    "bpmn:tFormalExpression"@
}

/// A sequence flow as imported: a condition without an expression type
/// gets the formal expression type; anything else is kept.
pub open spec fn normalize_flow(f: SequenceFlowModel) -> SequenceFlowModel {
    match f.condition_expression {
        Some(ce) => if ce.xsi_type is Some {
            f
        } else {
            SequenceFlowModel {
                condition_expression: Some(
                    ConditionExpressionModel {
                        xsi_type: Some(formal_expression_type()),
                        expression: ce.expression,
                    },
                ),
                ..f
            }
        },
        None => f,
    }
}

/// A copy of `flow`, with the formal expression type given to a condition
/// that names no type.
pub fn normalized_flow(flow: &SequenceFlow) -> (r: SequenceFlow)
    ensures
        r@ == normalize_flow(flow@),
{
    let mut f = flow.clone();
    match &flow.condition_expression {
        Some(ce) => {
            if ce.xsi_type.is_none() {
                f.condition_expression = Some(
                    ConditionExpression {
                        xsi_type: Some(String::from_str("bpmn:tFormalExpression")),
                        expression: copy_string(&ce.expression),
                    },
                );
            }
        },
        None => {},
    }
    assert(f@ =~= normalize_flow(flow@));
    f
}

/// The frontmatter of the process file: the process attributes, the
/// document attributes, and the diagram and plane ids when the document has
/// a diagram section.
pub open spec fn process_metadata_of(d: DefinitionsModel, p: ProcessModel) -> ProcessMetadataModel {
    ProcessMetadataModel {
        id: p.id,
        name: p.name,
        is_executable: p.is_executable,
        is_closed: p.is_closed,
        process_type: p.process_type,
        documentation: p.documentation,
        definitions: DefinitionsMetadataModel {
            id: d.id,
            name: d.name,
            target_namespace: d.target_namespace,
            exporter: d.exporter,
            exporter_version: d.exporter_version,
        },
        diagram: match d.bpmn_diagram {
            Some(dg) => Some(
                ProcessDiagramMetadataModel {
                    id: dg.id,
                    plane: ProcessPlaneMetadataModel { id: dg.plane.id, bpmn_element: dg.plane.bpmn_element },
                },
            ),
            None => None,
        },
    }
}

/// The frontmatter of the process file of `process` in `definitions`.
pub fn process_metadata(definitions: &Definitions, process: &Process) -> (r: ProcessMetadata)
    ensures
        r@ == process_metadata_of(definitions@, process@),
{
    let diagram = match &definitions.bpmn_diagram {
        Some(dg) => Some(
            ProcessDiagramMetadata {
                id: copy_string(&dg.id),
                plane: ProcessPlaneMetadata {
                    id: copy_string(&dg.plane.id),
                    bpmn_element: copy_string(&dg.plane.bpmn_element),
                },
            },
        ),
        None => None,
    };
    let r = ProcessMetadata {
        id: copy_string(&process.id),
        name: copy_opt(&process.name),
        is_executable: process.is_executable,
        is_closed: process.is_closed,
        process_type: copy_opt(&process.process_type),
        documentation: copy_opt(&process.documentation),
        definitions: DefinitionsMetadata {
            id: copy_string(&definitions.id),
            name: copy_opt(&definitions.name),
            target_namespace: copy_opt(&definitions.target_namespace),
            exporter: copy_opt(&definitions.exporter),
            exporter_version: copy_opt(&definitions.exporter_version),
        },
        diagram,
    };
    assert(r@ =~= process_metadata_of(definitions@, process@));
    r
}


/// The value an MDX file's YAML is made from.
pub enum ImportData {
    Process(ProcessMetadata),
    StartEvent(StartEvent),
    EndEvent(EndEvent),
    Task(Task),
    ManualTask(ManualTask),
    UserTask(UserTask),
    ServiceTask(ServiceTask),
    ScriptTask(ScriptTask),
    ExclusiveGateway(ExclusiveGateway),
    ParallelGateway(ParallelGateway),
    SequenceFlow(SequenceFlow),
}

/// Abstract value of an [`ImportData`].
pub enum ImportDataModel {
    Process(ProcessMetadataModel),
    StartEvent(StartEventModel),
    EndEvent(EndEventModel),
    Task(TaskModel),
    ManualTask(ManualTaskModel),
    UserTask(UserTaskModel),
    ServiceTask(ServiceTaskModel),
    ScriptTask(ScriptTaskModel),
    ExclusiveGateway(ExclusiveGatewayModel),
    ParallelGateway(ParallelGatewayModel),
    SequenceFlow(SequenceFlowModel),
}

impl View for ImportData {
    type V = ImportDataModel;

    open spec fn view(&self) -> ImportDataModel {
        match self {
            ImportData::Process(x) => ImportDataModel::Process(x@),
            ImportData::StartEvent(x) => ImportDataModel::StartEvent(x@),
            ImportData::EndEvent(x) => ImportDataModel::EndEvent(x@),
            ImportData::Task(x) => ImportDataModel::Task(x@),
            ImportData::ManualTask(x) => ImportDataModel::ManualTask(x@),
            ImportData::UserTask(x) => ImportDataModel::UserTask(x@),
            ImportData::ServiceTask(x) => ImportDataModel::ServiceTask(x@),
            ImportData::ScriptTask(x) => ImportDataModel::ScriptTask(x@),
            ImportData::ExclusiveGateway(x) => ImportDataModel::ExclusiveGateway(x@),
            ImportData::ParallelGateway(x) => ImportDataModel::ParallelGateway(x@),
            ImportData::SequenceFlow(x) => ImportDataModel::SequenceFlow(x@),
        }
    }
}

/// One MDX file to produce: its name stem, the BPMN type on its `type:`
/// line, the value its YAML is made from, and its diagram information.
pub struct ImportEntry {
    pub id: String,
    pub bpmn_type: String,
    pub data: ImportData,
    pub diagram: Option<DiagramEntry>,
}

/// Abstract value of an [`ImportEntry`].
pub struct ImportEntryModel {
    pub id: Seq<char>,
    pub bpmn_type: Seq<char>,
    pub data: ImportDataModel,
    pub diagram: Option<DiagramEntryModel>,
}

impl View for ImportEntry {
    type V = ImportEntryModel;

    open spec fn view(&self) -> ImportEntryModel {
        ImportEntryModel {
            id: self.id@,
            bpmn_type: self.bpmn_type@,
            data: self.data@,
            diagram: self.diagram.deep_view(),
        }
    }
}

impl DeepView for ImportEntry {
    type V = ImportEntryModel;

    open spec fn deep_view(&self) -> ImportEntryModel {
        self@
    }
}

/// The entry of a flow element with id `id` and type `bpmn_type`, with the
/// diagram information the document has for it.
pub open spec fn element_entry(
    d: DefinitionsModel,
    id: Seq<char>,
    bpmn_type: Seq<char>,
    data: ImportDataModel,
) -> ImportEntryModel {
    ImportEntryModel { id, bpmn_type, data, diagram: diagram_for(d, id) }
}

/// Flow element types that are imported into MDX files.
pub trait ImportElement: Sized + DeepView {
    /// The id of an element.
    spec fn id_of(m: Self::V) -> Seq<char>;

    /// The value an element's YAML is made from.
    spec fn data_of(m: Self::V) -> ImportDataModel;

    /// The BPMN type written on the element's `type:` line.
    spec fn type_of() -> Seq<char>;

    fn element_id(&self) -> (r: &String)
        ensures
            r@ == Self::id_of(self.deep_view()),
    ;

    fn import_data(&self) -> (r: ImportData)
        ensures
            r@ == Self::data_of(self.deep_view()),
    ;

    fn bpmn_type() -> (r: &'static str)
        ensures
            r@ == Self::type_of(),
    ;
}

impl ImportElement for StartEvent {
    open spec fn id_of(m: StartEventModel) -> Seq<char> {
        m.id
    }

    open spec fn data_of(m: StartEventModel) -> ImportDataModel {
        ImportDataModel::StartEvent(m)
    }

    open spec fn type_of() -> Seq<char> {
        "bpmn:startEvent"@
    }

    fn element_id(&self) -> (r: &String) {
        &self.id
    }

    fn import_data(&self) -> (r: ImportData) {
        ImportData::StartEvent(self.clone())
    }

    fn bpmn_type() -> (r: &'static str) {
        "bpmn:startEvent"
    }
}

impl ImportElement for EndEvent {
    open spec fn id_of(m: EndEventModel) -> Seq<char> {
        m.id
    }

    open spec fn data_of(m: EndEventModel) -> ImportDataModel {
        ImportDataModel::EndEvent(m)
    }

    open spec fn type_of() -> Seq<char> {
        "bpmn:endEvent"@
    }

    fn element_id(&self) -> (r: &String) {
        &self.id
    }

    fn import_data(&self) -> (r: ImportData) {
        ImportData::EndEvent(self.clone())
    }

    fn bpmn_type() -> (r: &'static str) {
        "bpmn:endEvent"
    }
}

impl ImportElement for Task {
    open spec fn id_of(m: TaskModel) -> Seq<char> {
        m.id
    }

    open spec fn data_of(m: TaskModel) -> ImportDataModel {
        ImportDataModel::Task(m)
    }

    open spec fn type_of() -> Seq<char> {
        "bpmn:task"@
    }

    fn element_id(&self) -> (r: &String) {
        &self.id
    }

    fn import_data(&self) -> (r: ImportData) {
        ImportData::Task(self.clone())
    }

    fn bpmn_type() -> (r: &'static str) {
        "bpmn:task"
    }
}

impl ImportElement for ManualTask {
    open spec fn id_of(m: ManualTaskModel) -> Seq<char> {
        m.id
    }

    open spec fn data_of(m: ManualTaskModel) -> ImportDataModel {
        ImportDataModel::ManualTask(m)
    }

    open spec fn type_of() -> Seq<char> {
        "bpmn:manualTask"@
    }

    fn element_id(&self) -> (r: &String) {
        &self.id
    }

    fn import_data(&self) -> (r: ImportData) {
        ImportData::ManualTask(self.clone())
    }

    fn bpmn_type() -> (r: &'static str) {
        "bpmn:manualTask"
    }
}

impl ImportElement for UserTask {
    open spec fn id_of(m: UserTaskModel) -> Seq<char> {
        m.id
    }

    open spec fn data_of(m: UserTaskModel) -> ImportDataModel {
        ImportDataModel::UserTask(m)
    }

    open spec fn type_of() -> Seq<char> {
        "bpmn:userTask"@
    }

    fn element_id(&self) -> (r: &String) {
        &self.id
    }

    fn import_data(&self) -> (r: ImportData) {
        ImportData::UserTask(self.clone())
    }

    fn bpmn_type() -> (r: &'static str) {
        "bpmn:userTask"
    }
}

impl ImportElement for ServiceTask {
    open spec fn id_of(m: ServiceTaskModel) -> Seq<char> {
        m.id
    }

    open spec fn data_of(m: ServiceTaskModel) -> ImportDataModel {
        ImportDataModel::ServiceTask(m)
    }

    open spec fn type_of() -> Seq<char> {
        "bpmn:serviceTask"@
    }

    fn element_id(&self) -> (r: &String) {
        &self.id
    }

    fn import_data(&self) -> (r: ImportData) {
        ImportData::ServiceTask(self.clone())
    }

    fn bpmn_type() -> (r: &'static str) {
        "bpmn:serviceTask"
    }
}

impl ImportElement for ScriptTask {
    open spec fn id_of(m: ScriptTaskModel) -> Seq<char> {
        m.id
    }

    open spec fn data_of(m: ScriptTaskModel) -> ImportDataModel {
        ImportDataModel::ScriptTask(m)
    }

    open spec fn type_of() -> Seq<char> {
        "bpmn:scriptTask"@
    }

    fn element_id(&self) -> (r: &String) {
        &self.id
    }

    fn import_data(&self) -> (r: ImportData) {
        ImportData::ScriptTask(self.clone())
    }

    fn bpmn_type() -> (r: &'static str) {
        "bpmn:scriptTask"
    }
}

impl ImportElement for ExclusiveGateway {
    open spec fn id_of(m: ExclusiveGatewayModel) -> Seq<char> {
        m.id
    }

    open spec fn data_of(m: ExclusiveGatewayModel) -> ImportDataModel {
        ImportDataModel::ExclusiveGateway(m)
    }

    open spec fn type_of() -> Seq<char> {
        "bpmn:exclusiveGateway"@
    }

    fn element_id(&self) -> (r: &String) {
        &self.id
    }

    fn import_data(&self) -> (r: ImportData) {
        ImportData::ExclusiveGateway(self.clone())
    }

    fn bpmn_type() -> (r: &'static str) {
        "bpmn:exclusiveGateway"
    }
}

impl ImportElement for ParallelGateway {
    open spec fn id_of(m: ParallelGatewayModel) -> Seq<char> {
        m.id
    }

    open spec fn data_of(m: ParallelGatewayModel) -> ImportDataModel {
        ImportDataModel::ParallelGateway(m)
    }

    open spec fn type_of() -> Seq<char> {
        "bpmn:parallelGateway"@
    }

    fn element_id(&self) -> (r: &String) {
        &self.id
    }

    fn import_data(&self) -> (r: ImportData) {
        ImportData::ParallelGateway(self.clone())
    }

    fn bpmn_type() -> (r: &'static str) {
        "bpmn:parallelGateway"
    }
}

impl ImportElement for SequenceFlow {
    open spec fn id_of(m: SequenceFlowModel) -> Seq<char> {
        m.id
    }

    /// A flow is written with its condition normalized.
    open spec fn data_of(m: SequenceFlowModel) -> ImportDataModel {
        ImportDataModel::SequenceFlow(normalize_flow(m))
    }

    open spec fn type_of() -> Seq<char> {
        "bpmn:sequenceFlow"@
    }

    fn element_id(&self) -> (r: &String) {
        &self.id
    }

    fn import_data(&self) -> (r: ImportData) {
        ImportData::SequenceFlow(normalized_flow(self))
    }

    fn bpmn_type() -> (r: &'static str) {
        "bpmn:sequenceFlow"
    }
}

/// The entries of the elements of one list, in order.
pub open spec fn element_entries<T: ImportElement>(d: DefinitionsModel, items: Seq<T::V>) -> Seq<ImportEntryModel> {
    items.map_values(|m: T::V| element_entry(d, T::id_of(m), T::type_of(), T::data_of(m)))
}

/// The MDX files to produce for a document: first the process file, then
/// one file per element, by kind (start events, end events, tasks, manual
/// tasks, user tasks, service tasks, script tasks, exclusive gateways,
/// parallel gateways, sequence flows), each kind in document order. A
/// document without a process gives `NoProcess`.
pub open spec fn import_plan(d: DefinitionsModel) -> Result<Seq<ImportEntryModel>, ImportErrorModel> {
    match d.process {
        None => Err(ImportErrorModel::NoProcess),
        Some(p) => Ok(
            seq![
                ImportEntryModel {
                    id: p.id,
                    bpmn_type: "bpmn:process"@,
                    data: ImportDataModel::Process(process_metadata_of(d, p)),
                    diagram: None,
                },
            ] + element_entries::<StartEvent>(d, p.start_events) + element_entries::<EndEvent>(
                d,
                p.end_events,
            ) + element_entries::<Task>(d, p.tasks) + element_entries::<ManualTask>(d, p.manual_tasks)
                + element_entries::<UserTask>(d, p.user_tasks) + element_entries::<ServiceTask>(
                d,
                p.service_tasks,
            ) + element_entries::<ScriptTask>(d, p.script_tasks) + element_entries::<ExclusiveGateway>(
                d,
                p.exclusive_gateways,
            ) + element_entries::<ParallelGateway>(d, p.parallel_gateways)
                + element_entries::<SequenceFlow>(d, p.sequence_flows),
        ),
    }
}

/// Append the entries of `items` to `out`.
fn push_entries<T: ImportElement>(out: &mut Vec<ImportEntry>, d: &Definitions, items: &Vec<T>)
    ensures
        final(out).deep_view() == old(out).deep_view() + element_entries::<T>(d@, items.deep_view()),
{
    let ghost start = out.deep_view();
    let mut i: usize = 0;
    while i < items.len()
        invariant
            i <= items.len(),
            out.deep_view() == start + element_entries::<T>(d@, items.deep_view().take(i as int)),
        decreases items.len() - i,
    {
        let ghost before = out.deep_view();
        let item = &items[i];
        assert(items.deep_view()[i as int] == item.deep_view());
        let id = item.element_id();
        let e = ImportEntry {
            id: copy_string(id),
            bpmn_type: String::from_str(T::bpmn_type()),
            data: item.import_data(),
            diagram: find_diagram(d, id),
        };
        out.push(e);
        assert(out.deep_view() =~= before.push(
            element_entry(d@, T::id_of(item.deep_view()), T::type_of(), T::data_of(item.deep_view())),
        ));
        i = i + 1;
        assert(element_entries::<T>(d@, items.deep_view().take(i as int)) =~= element_entries::<T>(
            d@,
            items.deep_view().take(i - 1),
        ).push(element_entry(d@, T::id_of(item.deep_view()), T::type_of(), T::data_of(item.deep_view()))));
        assert(out.deep_view() =~= start + element_entries::<T>(d@, items.deep_view().take(i as int)));
    }
    assert(items.deep_view().take(i as int) =~= items.deep_view());
}

/// The MDX files to produce for `definitions`, in order.
pub fn import_entries(definitions: &Definitions) -> (r: Result<Vec<ImportEntry>, ImportError>)
    ensures
        match import_plan(definitions@) {
            Ok(es) => r matches Ok(v) && v.deep_view() == es,
            Err(e) => r matches Err(e2) && e2@ == e,
        },
{
    let process = match &definitions.process {
        Some(p) => p,
        None => {
            return Err(ImportError::NoProcess);
        },
    };
    assert(definitions@.process == Some(process@));
    let mut out: Vec<ImportEntry> = Vec::new();
    out.push(
        ImportEntry {
            id: copy_string(&process.id),
            bpmn_type: String::from_str("bpmn:process"),
            data: ImportData::Process(process_metadata(definitions, process)),
            diagram: None,
        },
    );
    push_entries(&mut out, definitions, &process.start_events);
    push_entries(&mut out, definitions, &process.end_events);
    push_entries(&mut out, definitions, &process.tasks);
    push_entries(&mut out, definitions, &process.manual_tasks);
    push_entries(&mut out, definitions, &process.user_tasks);
    push_entries(&mut out, definitions, &process.service_tasks);
    push_entries(&mut out, definitions, &process.script_tasks);
    push_entries(&mut out, definitions, &process.exclusive_gateways);
    push_entries(&mut out, definitions, &process.parallel_gateways);
    push_entries(&mut out, definitions, &process.sequence_flows);
    assert(out.deep_view() =~= import_plan(definitions@)->Ok_0);
    Ok(out)
}


/// Quoted key with an `@` prefix and a namespace, in single quotes.
pub const AT_QUALIFIED_SINGLE: &'static str = r"'@([a-zA-Z_][a-zA-Z0-9_]*):([a-zA-Z_][a-zA-Z0-9_]*)':";

/// Quoted key with an `@` prefix and a namespace, in double quotes.
pub const AT_QUALIFIED_DOUBLE: &'static str = r#""@([a-zA-Z_][a-zA-Z0-9_]*):([a-zA-Z_][a-zA-Z0-9_]*)":"#;

/// Quoted key with an `@` prefix, in single quotes.
pub const AT_SINGLE: &'static str = r"'@([a-zA-Z_][a-zA-Z0-9_]*)':";

/// Quoted key with an `@` prefix, in double quotes.
pub const AT_DOUBLE: &'static str = r#""@([a-zA-Z_][a-zA-Z0-9_]*)":"#;

/// Quoted key with a `$` prefix, in single quotes.
pub const DOLLAR_SINGLE: &'static str = r"'\$([a-zA-Z_][a-zA-Z0-9_]*)':";

/// Quoted key with a `$` prefix, in double quotes.
pub const DOLLAR_DOUBLE: &'static str = r#""\$([a-zA-Z_][a-zA-Z0-9_]*)":"#;

/// Unquoted key with a `$` prefix after whitespace.
pub const DOLLAR_UNQUOTED: &'static str = r"(\s)\$([a-zA-Z_][a-zA-Z0-9_]*):";

/// Replacement for namespaced keys.
pub const QUALIFIED_KEY: &'static str = "$1_$2:";

/// Replacement for a prefixed key.
pub const PLAIN_KEY: &'static str = "$1:";

/// Replacement for an unquoted prefixed key: the whitespace before it (if
/// the pattern captured any), then the key.
pub const SPACED_KEY: &'static str = "$1$2:";

/// YAML as written into MDX frontmatter: the `@` and `$` prefixes that the
/// XML attribute conventions put on keys, and the quotes they force, are
/// rewritten away, in a fixed order of seven rewrites.
pub open spec fn clean_yaml(yaml: Seq<char>) -> Seq<char> {
    let a = rewrite_all(AT_QUALIFIED_SINGLE@, yaml, QUALIFIED_KEY@);
    let b = rewrite_all(AT_QUALIFIED_DOUBLE@, a, QUALIFIED_KEY@);
    let c = rewrite_all(AT_SINGLE@, b, PLAIN_KEY@);
    let d = rewrite_all(AT_DOUBLE@, c, PLAIN_KEY@);
    let e = rewrite_all(DOLLAR_SINGLE@, d, PLAIN_KEY@);
    let f = rewrite_all(DOLLAR_DOUBLE@, e, PLAIN_KEY@);
    rewrite_all(DOLLAR_UNQUOTED@, f, SPACED_KEY@)
}

/// Clean YAML for MDX frontmatter.
pub fn clean_yaml_for_mdx(yaml: &str) -> (r: String)
    ensures
        r@ == clean_yaml(yaml@),
{
    let a = replace_all(AT_QUALIFIED_SINGLE, yaml, QUALIFIED_KEY);
    let b = replace_all(AT_QUALIFIED_DOUBLE, a.as_str(), QUALIFIED_KEY);
    let c = replace_all(AT_SINGLE, b.as_str(), PLAIN_KEY);
    let d = replace_all(AT_DOUBLE, c.as_str(), PLAIN_KEY);
    let e = replace_all(DOLLAR_SINGLE, d.as_str(), PLAIN_KEY);
    let f = replace_all(DOLLAR_DOUBLE, e.as_str(), PLAIN_KEY);
    replace_all(DOLLAR_UNQUOTED, f.as_str(), SPACED_KEY)
}

/// Every line of `s` indented by two spaces, joined by line breaks, with a
/// final line break.
pub open spec fn indent_block(s: Seq<char>) -> Seq<char> {
    join_lines(text_lines(s).map_values(|l: Seq<char>| "  "@ + l)) + "\n"@
}

/// Indent every line of `s` by two spaces.
pub fn indent_lines(s: &str) -> (r: String)
    ensures
        r@ == indent_block(s@),
{
    let c = to_chars(s);
    let n = c.len();
    let mut r = String::new();
    let mut i: usize = 0;
    let ghost mut done: Seq<Seq<char>> = Seq::empty();
    assert(c@.subrange(0, n as int) =~= s@);
    while i < n
        invariant
            i <= n,
            n == c@.len(),
            c@ == s@,
            done.len() == 0 <==> i == 0,
            text_lines(s@) == done + text_lines(c@.subrange(i as int, n as int)),
            r@ == join_lines(done.map_values(|l: Seq<char>| "  "@ + l)),
        decreases n - i,
    {
        let ghost rest = c@.subrange(i as int, n as int);
        let mut j = i;
        while j < n && c[j] != '\n'
            invariant
                i <= j <= n,
                n == c@.len(),
                forall|k: int| i <= k < j ==> c@[k] != '\n',
            decreases n - j,
        {
            j = j + 1;
        }
        proof {
            assert forall|k: int| 0 <= k < j - i implies rest[k] != '\n' by {
                assert(rest[k] == c@[i + k]);
            }
            if j < n {
                assert(rest[j - i] == c@[j as int]);
            }
            lemma_line_end_exact(rest, j - i);
        }
        let mut e = j;
        if j < n && j > i && c[j - 1] == '\r' {
            e = j - 1;
        }
        let ghost line = c@.subrange(i as int, e as int);
        proof {
            if j < n {
                assert(rest.subrange(0, j - i) =~= c@.subrange(i as int, j as int));
                if j > i && c@[j - 1] == '\r' {
                    assert(c@.subrange(i as int, j as int).drop_last() =~= line);
                }
                assert(strip_cr(rest.subrange(0, j - i)) == line);
                assert(rest.subrange(j - i + 1, rest.len() as int) =~= c@.subrange(j + 1, n as int));
                assert(text_lines(rest) =~= seq![line] + text_lines(c@.subrange(j + 1, n as int)));
            } else {
                assert(line =~= rest);
                assert(c@.subrange(n as int, n as int) =~= Seq::<char>::empty());
                assert(text_lines(rest) =~= seq![line] + text_lines(c@.subrange(n as int, n as int)));
            }
        }
        let ghost old_done = done;
        if i > 0 {
            r.append("\n");
        }
        r.append("  ");
        r.append(s.substring_char(i, e));
        proof {
            done = done.push(line);
            let f = |l: Seq<char>| "  "@ + l;
            assert(done.map_values(f) =~= old_done.map_values(f).push(f(line)));
            assert(done.map_values(f).drop_last() =~= old_done.map_values(f));
            if old_done.len() == 0 {
                assert(done.map_values(f).len() == 1);
            }
        }
        if j < n {
            i = j + 1;
        } else {
            i = n;
        }
        assert(done + text_lines(c@.subrange(i as int, n as int)) =~= old_done + (seq![line] + text_lines(c@.subrange(i as int, n as int))));
    }
    assert(c@.subrange(n as int, n as int) =~= Seq::<char>::empty());
    assert(done =~= text_lines(s@));
    r.append("\n");
    r
}

/// The frontmatter block of an MDX file: the `type:` line, the element's
/// YAML, and the indented diagram YAML under `diagram:` when there is one.
pub open spec fn mdx_content(bpmn_type: Seq<char>, yaml: Seq<char>, diagram: Option<Seq<char>>) -> Seq<char> {
    match diagram {
        Some(d) => "---\ntype: "@ + bpmn_type + "\n"@ + yaml + "diagram:\n"@ + indent_block(d) + "---\n"@,
        None => "---\ntype: "@ + bpmn_type + "\n"@ + yaml + "---\n"@,
    }
}

/// The name of the MDX file of the element `id`.
pub open spec fn mdx_file_name(id: Seq<char>) -> Seq<char> {
    id + ".mdx"@
}

/// The MDX file of the element `id` of type `bpmn_type`, from the YAML of
/// the element and, if any, of its diagram information; both are cleaned.
pub fn to_diagram_mdx(id: &str, bpmn_type: &str, yaml: &str, diagram_yaml: Option<&str>) -> (r: MdxOutput)
    ensures
        r@ == (MdxOutputModel {
            filename: mdx_file_name(id@),
            content: mdx_content(
                bpmn_type@,
                clean_yaml(yaml@),
                match diagram_yaml {
                    Some(d) => Some(clean_yaml(d@)),
                    None => None,
                },
            ),
        }),
{
    let clean = clean_yaml_for_mdx(yaml);
    let mut content = String::from_str("---\ntype: ");
    content.append(bpmn_type);
    content.append("\n");
    content.append(clean.as_str());
    match diagram_yaml {
        Some(d) => {
            let clean_diag = clean_yaml_for_mdx(d);
            let indented = indent_lines(clean_diag.as_str());
            content.append("diagram:\n");
            content.append(indented.as_str());
        },
        None => {},
    }
    content.append("---\n");
    let mut filename = String::from_str(id);
    filename.append(".mdx");
    MdxOutput { filename, content }
}


/// The YAML text of one entry, as the caller's serializer produced it (or
/// the serializer's error message): `data` for the entry's value, and
/// `diagram` for its diagram information, which is read only when the entry
/// has some.
pub struct SerializedEntry {
    pub data: Result<String, String>,
    pub diagram: Result<String, String>,
}

/// Abstract value of a [`SerializedEntry`].
pub struct SerializedEntryModel {
    pub data: Result<Seq<char>, Seq<char>>,
    pub diagram: Result<Seq<char>, Seq<char>>,
}

/// The abstract value of a serializer's answer.
pub open spec fn text_result(r: Result<String, String>) -> Result<Seq<char>, Seq<char>> {
    match r {
        Ok(t) => Ok(t@),
        Err(m) => Err(m@),
    }
}

impl View for SerializedEntry {
    type V = SerializedEntryModel;

    open spec fn view(&self) -> SerializedEntryModel {
        SerializedEntryModel { data: text_result(self.data), diagram: text_result(self.diagram) }
    }
}

impl DeepView for SerializedEntry {
    type V = SerializedEntryModel;

    open spec fn deep_view(&self) -> SerializedEntryModel {
        self@
    }
}

/// The MDX file of one entry from its YAML, or the serialization error:
/// the entry's own YAML first, then that of its diagram information.
pub open spec fn render_entry(e: ImportEntryModel, s: SerializedEntryModel) -> Result<MdxOutputModel, ImportErrorModel> {
    match s.data {
        Err(m) => Err(ImportErrorModel::SerializationError(m)),
        Ok(y) => match e.diagram {
            None => Ok(
                MdxOutputModel {
                    filename: mdx_file_name(e.id),
                    content: mdx_content(e.bpmn_type, clean_yaml(y), None),
                },
            ),
            Some(_) => match s.diagram {
                Err(m) => Err(ImportErrorModel::SerializationError(m)),
                Ok(dy) => Ok(
                    MdxOutputModel {
                        filename: mdx_file_name(e.id),
                        content: mdx_content(e.bpmn_type, clean_yaml(y), Some(clean_yaml(dy))),
                    },
                ),
            },
        },
    }
}

/// The MDX files of the first `n` entries, or the first error.
pub open spec fn render_prefix(
    es: Seq<ImportEntryModel>,
    ss: Seq<SerializedEntryModel>,
    n: nat,
) -> Result<Seq<MdxOutputModel>, ImportErrorModel>
    decreases n,
{
    if n == 0 {
        Ok(Seq::empty())
    } else {
        match render_prefix(es, ss, (n - 1) as nat) {
            Err(e) => Err(e),
            Ok(outs) => match render_entry(es[n - 1], ss[n - 1]) {
                Err(e) => Err(e),
                Ok(o) => Ok(outs.push(o)),
            },
        }
    }
}

/// The result of importing `d`, given the YAML of each planned entry.
pub open spec fn import_result(
    d: DefinitionsModel,
    ss: Seq<SerializedEntryModel>,
) -> Result<Seq<MdxOutputModel>, ImportErrorModel> {
    match import_plan(d) {
        Err(e) => Err(e),
        Ok(es) => render_prefix(es, ss, es.len()),
    }
}

/// The number of MDX files an import of `d` plans (zero without a
/// process).
pub open spec fn plan_len(d: DefinitionsModel) -> nat {
    match import_plan(d) {
        Ok(es) => es.len(),
        Err(_) => 0,
    }
}

/// The abstract value of an import outcome.
pub open spec fn import_outcome(r: Result<Vec<MdxOutput>, ImportError>) -> Result<Seq<MdxOutputModel>, ImportErrorModel> {
    match r {
        Ok(v) => Ok(v.deep_view()),
        Err(e) => Err(e@),
    }
}

/// The MDX file of one entry from its YAML.
fn render(e: &ImportEntry, s: &SerializedEntry) -> (r: Result<MdxOutput, ImportError>)
    ensures
        match render_entry(e@, s@) {
            Ok(o) => r matches Ok(o2) && o2@ == o,
            Err(x) => r matches Err(x2) && x2@ == x,
        },
{
    let yaml = match &s.data {
        Ok(y) => y,
        Err(m) => {
            return Err(ImportError::SerializationError(copy_string(m)));
        },
    };
    match &e.diagram {
        None => Ok(to_diagram_mdx(e.id.as_str(), e.bpmn_type.as_str(), yaml.as_str(), None)),
        Some(_) => match &s.diagram {
            Err(m) => Err(ImportError::SerializationError(copy_string(m))),
            Ok(dy) => Ok(to_diagram_mdx(e.id.as_str(), e.bpmn_type.as_str(), yaml.as_str(), Some(dy.as_str()))),
        },
    }
}

/// Once rendering stops with an error, it stays stopped with that error.
proof fn lemma_render_stops(es: Seq<ImportEntryModel>, ss: Seq<SerializedEntryModel>, n: nat, m: nat)
    requires
        n <= m,
        render_prefix(es, ss, n) is Err,
    ensures
        render_prefix(es, ss, m) == render_prefix(es, ss, n),
    decreases m - n,
{
    if n < m {
        lemma_render_stops(es, ss, n, (m - 1) as nat);
    }
}

/// Import a BPMN document into MDX files: the process file first, then one
/// file per flow element (see [`import_plan`] for the order), each from the
/// YAML the caller serialized for the matching planned entry
/// (`serialized[i]` for the `i`-th entry of [`import_entries`]). A document
/// without a process gives `NoProcess`; the first serialization failure,
/// in order, gives `SerializationError` with its message.
pub fn import_to_mdx(definitions: &Definitions, serialized: &[SerializedEntry]) -> (r: Result<
    Vec<MdxOutput>,
    ImportError,
>)
    requires
        serialized.len() == plan_len(definitions@),
    ensures
        import_outcome(r) == import_result(definitions@, serialized.deep_view()),
{
    let entries = match import_entries(definitions) {
        Ok(es) => es,
        Err(e) => {
            return Err(e);
        },
    };
    let ghost es = entries.deep_view();
    let ghost ss = serialized.deep_view();
    let mut outputs: Vec<MdxOutput> = Vec::new();
    assert(outputs.deep_view() =~= Seq::<MdxOutputModel>::empty());
    let mut i: usize = 0;
    while i < entries.len()
        invariant
            i <= entries.len(),
            entries.len() == serialized.len(),
            es == entries.deep_view(),
            ss == serialized.deep_view(),
            import_plan(definitions@) == Ok::<Seq<ImportEntryModel>, ImportErrorModel>(es),
            render_prefix(es, ss, i as nat) == Ok::<Seq<MdxOutputModel>, ImportErrorModel>(outputs.deep_view()),
        decreases entries.len() - i,
    {
        assert(es[i as int] == entries[i as int]@);
        assert(ss[i as int] == serialized[i as int]@);
        match render(&entries[i], &serialized[i]) {
            Ok(o) => {
                let ghost before = outputs.deep_view();
                outputs.push(o);
                assert(outputs.deep_view() =~= before.push(o@));
            },
            Err(e) => {
                assert(render_prefix(es, ss, (i + 1) as nat) == Err::<Seq<MdxOutputModel>, ImportErrorModel>(e@));
                proof { lemma_render_stops(es, ss, (i + 1) as nat, entries.len() as nat); }
                return Err(e);
            },
        }
        i = i + 1;
    }
    Ok(outputs)
}

} // verus!
