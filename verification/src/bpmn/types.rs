//! BPMN 2.0 element types for the supported subset: definitions, process,
//! start/end events, tasks (plain, service, script), exclusive and parallel
//! gateways, sequence flows and documentation.

use vstd::prelude::*;
use crate::text::{copy_opt, copy_string, copy_vec, Duplicate};

verus! {

/// BPMN 2.0 namespace.
pub const BPMN_NS: &'static str = "http://www.omg.org/spec/BPMN/20100524/MODEL";

/// BPMN DI namespace.
pub const BPMNDI_NS: &'static str = "http://www.omg.org/spec/BPMN/20100524/DI";

impl View for Documentation {
    type V = Seq<char>;

    open spec fn view(&self) -> Seq<char> {
        self.text@
    }
}

impl DeepView for Documentation {
    type V = Seq<char>;

    open spec fn deep_view(&self) -> Seq<char> {
        self@
    }
}

impl Clone for Documentation {
    fn clone(&self) -> (r: Self)
        ensures
            r@ == self@,
    {
        Documentation { text: copy_string(&self.text) }
    }
}

impl Duplicate for Documentation {
    fn duplicate(&self) -> (r: Self) {
        self.clone()
    }
}

/// Documentation text of an element.
pub struct Documentation {
    pub text: String,
}

/// A condition on a sequence flow leaving a gateway.
pub struct ConditionExpression {
    pub xsi_type: Option<String>,
    pub expression: String,
}

/// Abstract value of a [`ConditionExpression`].
#[verifier::ext_equal]
pub struct ConditionExpressionModel {
    pub xsi_type: Option<Seq<char>>,
    pub expression: Seq<char>,
}

impl View for ConditionExpression {
    type V = ConditionExpressionModel;

    open spec fn view(&self) -> ConditionExpressionModel {
        ConditionExpressionModel {
            xsi_type: self.xsi_type.deep_view(),
            expression: self.expression@,
        }
    }
}

impl DeepView for ConditionExpression {
    type V = ConditionExpressionModel;

    open spec fn deep_view(&self) -> ConditionExpressionModel {
        self@
    }
}

impl Clone for ConditionExpression {
    fn clone(&self) -> (r: Self)
        ensures
            r@ == self@,
    {
        ConditionExpression {
            xsi_type: copy_opt(&self.xsi_type),
            expression: copy_string(&self.expression),
        }
    }
}

impl Duplicate for ConditionExpression {
    fn duplicate(&self) -> (r: Self) {
        self.clone()
    }
}

/// BPMN start event.
pub struct StartEvent {
    pub id: String,
    pub name: Option<String>,
    pub outgoing: Vec<String>,
    pub documentation: Option<Documentation>,
}

/// Abstract value of a [`StartEvent`].
#[verifier::ext_equal]
pub struct StartEventModel {
    pub id: Seq<char>,
    pub name: Option<Seq<char>>,
    pub outgoing: Seq<Seq<char>>,
    pub documentation: Option<Seq<char>>,
}

impl View for StartEvent {
    type V = StartEventModel;

    open spec fn view(&self) -> StartEventModel {
        StartEventModel {
            id: self.id@,
            name: self.name.deep_view(),
            outgoing: self.outgoing.deep_view(),
            documentation: self.documentation.deep_view(),
        }
    }
}

impl DeepView for StartEvent {
    type V = StartEventModel;

    open spec fn deep_view(&self) -> StartEventModel {
        self@
    }
}

impl Clone for StartEvent {
    fn clone(&self) -> (r: Self)
        ensures
            r@ == self@,
    {
        StartEvent {
            id: copy_string(&self.id),
            name: copy_opt(&self.name),
            outgoing: copy_vec(&self.outgoing),
            documentation: copy_opt(&self.documentation),
        }
    }
}

impl Duplicate for StartEvent {
    fn duplicate(&self) -> (r: Self) {
        self.clone()
    }
}

/// BPMN end event.
pub struct EndEvent {
    pub id: String,
    pub name: Option<String>,
    pub incoming: Vec<String>,
    pub documentation: Option<Documentation>,
}

/// Abstract value of a [`EndEvent`].
#[verifier::ext_equal]
pub struct EndEventModel {
    pub id: Seq<char>,
    pub name: Option<Seq<char>>,
    pub incoming: Seq<Seq<char>>,
    pub documentation: Option<Seq<char>>,
}

impl View for EndEvent {
    type V = EndEventModel;

    open spec fn view(&self) -> EndEventModel {
        EndEventModel {
            id: self.id@,
            name: self.name.deep_view(),
            incoming: self.incoming.deep_view(),
            documentation: self.documentation.deep_view(),
        }
    }
}

impl DeepView for EndEvent {
    type V = EndEventModel;

    open spec fn deep_view(&self) -> EndEventModel {
        self@
    }
}

impl Clone for EndEvent {
    fn clone(&self) -> (r: Self)
        ensures
            r@ == self@,
    {
        EndEvent {
            id: copy_string(&self.id),
            name: copy_opt(&self.name),
            incoming: copy_vec(&self.incoming),
            documentation: copy_opt(&self.documentation),
        }
    }
}

impl Duplicate for EndEvent {
    fn duplicate(&self) -> (r: Self) {
        self.clone()
    }
}

/// Generic BPMN task.
pub struct Task {
    pub id: String,
    pub name: Option<String>,
    pub incoming: Vec<String>,
    pub outgoing: Vec<String>,
    pub documentation: Option<Documentation>,
}

/// Abstract value of a [`Task`].
#[verifier::ext_equal]
pub struct TaskModel {
    pub id: Seq<char>,
    pub name: Option<Seq<char>>,
    pub incoming: Seq<Seq<char>>,
    pub outgoing: Seq<Seq<char>>,
    pub documentation: Option<Seq<char>>,
}

impl View for Task {
    type V = TaskModel;

    open spec fn view(&self) -> TaskModel {
        TaskModel {
            id: self.id@,
            name: self.name.deep_view(),
            incoming: self.incoming.deep_view(),
            outgoing: self.outgoing.deep_view(),
            documentation: self.documentation.deep_view(),
        }
    }
}

impl DeepView for Task {
    type V = TaskModel;

    open spec fn deep_view(&self) -> TaskModel {
        self@
    }
}

impl Clone for Task {
    fn clone(&self) -> (r: Self)
        ensures
            r@ == self@,
    {
        Task {
            id: copy_string(&self.id),
            name: copy_opt(&self.name),
            incoming: copy_vec(&self.incoming),
            outgoing: copy_vec(&self.outgoing),
            documentation: copy_opt(&self.documentation),
        }
    }
}

impl Duplicate for Task {
    fn duplicate(&self) -> (r: Self) {
        self.clone()
    }
}

/// BPMN service task.
pub struct ServiceTask {
    pub id: String,
    pub name: Option<String>,
    pub implementation: Option<String>,
    pub incoming: Vec<String>,
    pub outgoing: Vec<String>,
    pub documentation: Option<Documentation>,
}

/// Abstract value of a [`ServiceTask`].
#[verifier::ext_equal]
pub struct ServiceTaskModel {
    pub id: Seq<char>,
    pub name: Option<Seq<char>>,
    pub implementation: Option<Seq<char>>,
    pub incoming: Seq<Seq<char>>,
    pub outgoing: Seq<Seq<char>>,
    pub documentation: Option<Seq<char>>,
}

impl View for ServiceTask {
    type V = ServiceTaskModel;

    open spec fn view(&self) -> ServiceTaskModel {
        ServiceTaskModel {
            id: self.id@,
            name: self.name.deep_view(),
            implementation: self.implementation.deep_view(),
            incoming: self.incoming.deep_view(),
            outgoing: self.outgoing.deep_view(),
            documentation: self.documentation.deep_view(),
        }
    }
}

impl DeepView for ServiceTask {
    type V = ServiceTaskModel;

    open spec fn deep_view(&self) -> ServiceTaskModel {
        self@
    }
}

impl Clone for ServiceTask {
    fn clone(&self) -> (r: Self)
        ensures
            r@ == self@,
    {
        ServiceTask {
            id: copy_string(&self.id),
            name: copy_opt(&self.name),
            implementation: copy_opt(&self.implementation),
            incoming: copy_vec(&self.incoming),
            outgoing: copy_vec(&self.outgoing),
            documentation: copy_opt(&self.documentation),
        }
    }
}

impl Duplicate for ServiceTask {
    fn duplicate(&self) -> (r: Self) {
        self.clone()
    }
}

/// BPMN script task.
pub struct ScriptTask {
    pub id: String,
    pub name: Option<String>,
    pub script_format: Option<String>,
    pub incoming: Vec<String>,
    pub outgoing: Vec<String>,
    pub script: Option<String>,
    pub documentation: Option<Documentation>,
}

/// Abstract value of a [`ScriptTask`].
#[verifier::ext_equal]
pub struct ScriptTaskModel {
    pub id: Seq<char>,
    pub name: Option<Seq<char>>,
    pub script_format: Option<Seq<char>>,
    pub incoming: Seq<Seq<char>>,
    pub outgoing: Seq<Seq<char>>,
    pub script: Option<Seq<char>>,
    pub documentation: Option<Seq<char>>,
}

impl View for ScriptTask {
    type V = ScriptTaskModel;

    open spec fn view(&self) -> ScriptTaskModel {
        ScriptTaskModel {
            id: self.id@,
            name: self.name.deep_view(),
            script_format: self.script_format.deep_view(),
            incoming: self.incoming.deep_view(),
            outgoing: self.outgoing.deep_view(),
            script: self.script.deep_view(),
            documentation: self.documentation.deep_view(),
        }
    }
}

impl DeepView for ScriptTask {
    type V = ScriptTaskModel;

    open spec fn deep_view(&self) -> ScriptTaskModel {
        self@
    }
}

impl Clone for ScriptTask {
    fn clone(&self) -> (r: Self)
        ensures
            r@ == self@,
    {
        ScriptTask {
            id: copy_string(&self.id),
            name: copy_opt(&self.name),
            script_format: copy_opt(&self.script_format),
            incoming: copy_vec(&self.incoming),
            outgoing: copy_vec(&self.outgoing),
            script: copy_opt(&self.script),
            documentation: copy_opt(&self.documentation),
        }
    }
}

impl Duplicate for ScriptTask {
    fn duplicate(&self) -> (r: Self) {
        self.clone()
    }
}

/// BPMN exclusive (XOR) gateway.
pub struct ExclusiveGateway {
    pub id: String,
    pub name: Option<String>,
    pub gateway_direction: Option<String>,
    pub default: Option<String>,
    pub incoming: Vec<String>,
    pub outgoing: Vec<String>,
    pub documentation: Option<Documentation>,
}

/// Abstract value of a [`ExclusiveGateway`].
#[verifier::ext_equal]
pub struct ExclusiveGatewayModel {
    pub id: Seq<char>,
    pub name: Option<Seq<char>>,
    pub gateway_direction: Option<Seq<char>>,
    pub default: Option<Seq<char>>,
    pub incoming: Seq<Seq<char>>,
    pub outgoing: Seq<Seq<char>>,
    pub documentation: Option<Seq<char>>,
}

impl View for ExclusiveGateway {
    type V = ExclusiveGatewayModel;

    open spec fn view(&self) -> ExclusiveGatewayModel {
        ExclusiveGatewayModel {
            id: self.id@,
            name: self.name.deep_view(),
            gateway_direction: self.gateway_direction.deep_view(),
            default: self.default.deep_view(),
            incoming: self.incoming.deep_view(),
            outgoing: self.outgoing.deep_view(),
            documentation: self.documentation.deep_view(),
        }
    }
}

impl DeepView for ExclusiveGateway {
    type V = ExclusiveGatewayModel;

    open spec fn deep_view(&self) -> ExclusiveGatewayModel {
        self@
    }
}

impl Clone for ExclusiveGateway {
    fn clone(&self) -> (r: Self)
        ensures
            r@ == self@,
    {
        ExclusiveGateway {
            id: copy_string(&self.id),
            name: copy_opt(&self.name),
            gateway_direction: copy_opt(&self.gateway_direction),
            default: copy_opt(&self.default),
            incoming: copy_vec(&self.incoming),
            outgoing: copy_vec(&self.outgoing),
            documentation: copy_opt(&self.documentation),
        }
    }
}

impl Duplicate for ExclusiveGateway {
    fn duplicate(&self) -> (r: Self) {
        self.clone()
    }
}

/// BPMN parallel (AND) gateway.
pub struct ParallelGateway {
    pub id: String,
    pub name: Option<String>,
    pub gateway_direction: Option<String>,
    pub incoming: Vec<String>,
    pub outgoing: Vec<String>,
    pub documentation: Option<Documentation>,
}

/// Abstract value of a [`ParallelGateway`].
#[verifier::ext_equal]
pub struct ParallelGatewayModel {
    pub id: Seq<char>,
    pub name: Option<Seq<char>>,
    pub gateway_direction: Option<Seq<char>>,
    pub incoming: Seq<Seq<char>>,
    pub outgoing: Seq<Seq<char>>,
    pub documentation: Option<Seq<char>>,
}

impl View for ParallelGateway {
    type V = ParallelGatewayModel;

    open spec fn view(&self) -> ParallelGatewayModel {
        ParallelGatewayModel {
            id: self.id@,
            name: self.name.deep_view(),
            gateway_direction: self.gateway_direction.deep_view(),
            incoming: self.incoming.deep_view(),
            outgoing: self.outgoing.deep_view(),
            documentation: self.documentation.deep_view(),
        }
    }
}

impl DeepView for ParallelGateway {
    type V = ParallelGatewayModel;

    open spec fn deep_view(&self) -> ParallelGatewayModel {
        self@
    }
}

impl Clone for ParallelGateway {
    fn clone(&self) -> (r: Self)
        ensures
            r@ == self@,
    {
        ParallelGateway {
            id: copy_string(&self.id),
            name: copy_opt(&self.name),
            gateway_direction: copy_opt(&self.gateway_direction),
            incoming: copy_vec(&self.incoming),
            outgoing: copy_vec(&self.outgoing),
            documentation: copy_opt(&self.documentation),
        }
    }
}

impl Duplicate for ParallelGateway {
    fn duplicate(&self) -> (r: Self) {
        self.clone()
    }
}

/// BPMN sequence flow: an edge between two flow nodes.
pub struct SequenceFlow {
    pub id: String,
    pub name: Option<String>,
    pub source_ref: String,
    pub target_ref: String,
    pub condition_expression: Option<ConditionExpression>,
    pub documentation: Option<Documentation>,
}

/// Abstract value of a [`SequenceFlow`].
#[verifier::ext_equal]
pub struct SequenceFlowModel {
    pub id: Seq<char>,
    pub name: Option<Seq<char>>,
    pub source_ref: Seq<char>,
    pub target_ref: Seq<char>,
    pub condition_expression: Option<ConditionExpressionModel>,
    pub documentation: Option<Seq<char>>,
}

impl View for SequenceFlow {
    type V = SequenceFlowModel;

    open spec fn view(&self) -> SequenceFlowModel {
        SequenceFlowModel {
            id: self.id@,
            name: self.name.deep_view(),
            source_ref: self.source_ref@,
            target_ref: self.target_ref@,
            condition_expression: self.condition_expression.deep_view(),
            documentation: self.documentation.deep_view(),
        }
    }
}

impl DeepView for SequenceFlow {
    type V = SequenceFlowModel;

    open spec fn deep_view(&self) -> SequenceFlowModel {
        self@
    }
}

impl Clone for SequenceFlow {
    fn clone(&self) -> (r: Self)
        ensures
            r@ == self@,
    {
        SequenceFlow {
            id: copy_string(&self.id),
            name: copy_opt(&self.name),
            source_ref: copy_string(&self.source_ref),
            target_ref: copy_string(&self.target_ref),
            condition_expression: copy_opt(&self.condition_expression),
            documentation: copy_opt(&self.documentation),
        }
    }
}

impl Duplicate for SequenceFlow {
    fn duplicate(&self) -> (r: Self) {
        self.clone()
    }
}

/// Container for all flow element kinds.
pub struct FlowElements {
    pub start_events: Vec<StartEvent>,
    pub end_events: Vec<EndEvent>,
    pub tasks: Vec<Task>,
    pub service_tasks: Vec<ServiceTask>,
    pub script_tasks: Vec<ScriptTask>,
    pub exclusive_gateways: Vec<ExclusiveGateway>,
    pub parallel_gateways: Vec<ParallelGateway>,
    pub sequence_flows: Vec<SequenceFlow>,
}

/// Abstract value of a [`FlowElements`].
#[verifier::ext_equal]
pub struct FlowElementsModel {
    pub start_events: Seq<StartEventModel>,
    pub end_events: Seq<EndEventModel>,
    pub tasks: Seq<TaskModel>,
    pub service_tasks: Seq<ServiceTaskModel>,
    pub script_tasks: Seq<ScriptTaskModel>,
    pub exclusive_gateways: Seq<ExclusiveGatewayModel>,
    pub parallel_gateways: Seq<ParallelGatewayModel>,
    pub sequence_flows: Seq<SequenceFlowModel>,
}

impl View for FlowElements {
    type V = FlowElementsModel;

    open spec fn view(&self) -> FlowElementsModel {
        FlowElementsModel {
            start_events: self.start_events.deep_view(),
            end_events: self.end_events.deep_view(),
            tasks: self.tasks.deep_view(),
            service_tasks: self.service_tasks.deep_view(),
            script_tasks: self.script_tasks.deep_view(),
            exclusive_gateways: self.exclusive_gateways.deep_view(),
            parallel_gateways: self.parallel_gateways.deep_view(),
            sequence_flows: self.sequence_flows.deep_view(),
        }
    }
}

impl DeepView for FlowElements {
    type V = FlowElementsModel;

    open spec fn deep_view(&self) -> FlowElementsModel {
        self@
    }
}

impl Clone for FlowElements {
    fn clone(&self) -> (r: Self)
        ensures
            r@ == self@,
    {
        FlowElements {
            start_events: copy_vec(&self.start_events),
            end_events: copy_vec(&self.end_events),
            tasks: copy_vec(&self.tasks),
            service_tasks: copy_vec(&self.service_tasks),
            script_tasks: copy_vec(&self.script_tasks),
            exclusive_gateways: copy_vec(&self.exclusive_gateways),
            parallel_gateways: copy_vec(&self.parallel_gateways),
            sequence_flows: copy_vec(&self.sequence_flows),
        }
    }
}

impl Duplicate for FlowElements {
    fn duplicate(&self) -> (r: Self) {
        self.clone()
    }
}

/// BPMN process: the container of the flow elements.
pub struct Process {
    pub id: String,
    pub name: Option<String>,
    pub is_executable: Option<bool>,
    pub process_type: Option<String>,
    pub documentation: Option<Documentation>,
    pub start_events: Vec<StartEvent>,
    pub end_events: Vec<EndEvent>,
    pub tasks: Vec<Task>,
    pub service_tasks: Vec<ServiceTask>,
    pub script_tasks: Vec<ScriptTask>,
    pub exclusive_gateways: Vec<ExclusiveGateway>,
    pub parallel_gateways: Vec<ParallelGateway>,
    pub sequence_flows: Vec<SequenceFlow>,
}

/// Abstract value of a [`Process`].
#[verifier::ext_equal]
pub struct ProcessModel {
    pub id: Seq<char>,
    pub name: Option<Seq<char>>,
    pub is_executable: Option<bool>,
    pub process_type: Option<Seq<char>>,
    pub documentation: Option<Seq<char>>,
    pub start_events: Seq<StartEventModel>,
    pub end_events: Seq<EndEventModel>,
    pub tasks: Seq<TaskModel>,
    pub service_tasks: Seq<ServiceTaskModel>,
    pub script_tasks: Seq<ScriptTaskModel>,
    pub exclusive_gateways: Seq<ExclusiveGatewayModel>,
    pub parallel_gateways: Seq<ParallelGatewayModel>,
    pub sequence_flows: Seq<SequenceFlowModel>,
}

impl View for Process {
    type V = ProcessModel;

    open spec fn view(&self) -> ProcessModel {
        ProcessModel {
            id: self.id@,
            name: self.name.deep_view(),
            is_executable: self.is_executable,
            process_type: self.process_type.deep_view(),
            documentation: self.documentation.deep_view(),
            start_events: self.start_events.deep_view(),
            end_events: self.end_events.deep_view(),
            tasks: self.tasks.deep_view(),
            service_tasks: self.service_tasks.deep_view(),
            script_tasks: self.script_tasks.deep_view(),
            exclusive_gateways: self.exclusive_gateways.deep_view(),
            parallel_gateways: self.parallel_gateways.deep_view(),
            sequence_flows: self.sequence_flows.deep_view(),
        }
    }
}

impl DeepView for Process {
    type V = ProcessModel;

    open spec fn deep_view(&self) -> ProcessModel {
        self@
    }
}

impl Clone for Process {
    fn clone(&self) -> (r: Self)
        ensures
            r@ == self@,
    {
        Process {
            id: copy_string(&self.id),
            name: copy_opt(&self.name),
            is_executable: self.is_executable,
            process_type: copy_opt(&self.process_type),
            documentation: copy_opt(&self.documentation),
            start_events: copy_vec(&self.start_events),
            end_events: copy_vec(&self.end_events),
            tasks: copy_vec(&self.tasks),
            service_tasks: copy_vec(&self.service_tasks),
            script_tasks: copy_vec(&self.script_tasks),
            exclusive_gateways: copy_vec(&self.exclusive_gateways),
            parallel_gateways: copy_vec(&self.parallel_gateways),
            sequence_flows: copy_vec(&self.sequence_flows),
        }
    }
}

impl Duplicate for Process {
    fn duplicate(&self) -> (r: Self) {
        self.clone()
    }
}

/// Root element of a BPMN document.
pub struct Definitions {
    pub id: String,
    pub name: Option<String>,
    pub target_namespace: Option<String>,
    pub exporter: Option<String>,
    pub exporter_version: Option<String>,
    pub process: Option<Process>,
    pub bpmn_diagram: Option<String>,
}

/// Abstract value of a [`Definitions`].
#[verifier::ext_equal]
pub struct DefinitionsModel {
    pub id: Seq<char>,
    pub name: Option<Seq<char>>,
    pub target_namespace: Option<Seq<char>>,
    pub exporter: Option<Seq<char>>,
    pub exporter_version: Option<Seq<char>>,
    pub process: Option<ProcessModel>,
    pub bpmn_diagram: Option<Seq<char>>,
}

impl View for Definitions {
    type V = DefinitionsModel;

    open spec fn view(&self) -> DefinitionsModel {
        DefinitionsModel {
            id: self.id@,
            name: self.name.deep_view(),
            target_namespace: self.target_namespace.deep_view(),
            exporter: self.exporter.deep_view(),
            exporter_version: self.exporter_version.deep_view(),
            process: self.process.deep_view(),
            bpmn_diagram: self.bpmn_diagram.deep_view(),
        }
    }
}

impl DeepView for Definitions {
    type V = DefinitionsModel;

    open spec fn deep_view(&self) -> DefinitionsModel {
        self@
    }
}

impl Clone for Definitions {
    fn clone(&self) -> (r: Self)
        ensures
            r@ == self@,
    {
        Definitions {
            id: copy_string(&self.id),
            name: copy_opt(&self.name),
            target_namespace: copy_opt(&self.target_namespace),
            exporter: copy_opt(&self.exporter),
            exporter_version: copy_opt(&self.exporter_version),
            process: copy_opt(&self.process),
            bpmn_diagram: copy_opt(&self.bpmn_diagram),
        }
    }
}

impl Duplicate for Definitions {
    fn duplicate(&self) -> (r: Self) {
        self.clone()
    }
}

/// Any flow node (for graph operations).
pub enum FlowNode {
    StartEvent(StartEvent),
    EndEvent(EndEvent),
    Task(Task),
    ServiceTask(ServiceTask),
    ScriptTask(ScriptTask),
    ExclusiveGateway(ExclusiveGateway),
    ParallelGateway(ParallelGateway),
}

/// Abstract value of a [`FlowNode`].
pub enum FlowNodeModel {
    StartEvent(StartEventModel),
    EndEvent(EndEventModel),
    Task(TaskModel),
    ServiceTask(ServiceTaskModel),
    ScriptTask(ScriptTaskModel),
    ExclusiveGateway(ExclusiveGatewayModel),
    ParallelGateway(ParallelGatewayModel),
}

impl FlowNodeModel {
    /// The id of the node.
    pub open spec fn id(self) -> Seq<char> {
        match self {
            FlowNodeModel::StartEvent(e) => e.id,
            FlowNodeModel::EndEvent(e) => e.id,
            FlowNodeModel::Task(e) => e.id,
            FlowNodeModel::ServiceTask(e) => e.id,
            FlowNodeModel::ScriptTask(e) => e.id,
            FlowNodeModel::ExclusiveGateway(e) => e.id,
            FlowNodeModel::ParallelGateway(e) => e.id,
        }
    }

    /// The name of the node.
    pub open spec fn name(self) -> Option<Seq<char>> {
        match self {
            FlowNodeModel::StartEvent(e) => e.name,
            FlowNodeModel::EndEvent(e) => e.name,
            FlowNodeModel::Task(e) => e.name,
            FlowNodeModel::ServiceTask(e) => e.name,
            FlowNodeModel::ScriptTask(e) => e.name,
            FlowNodeModel::ExclusiveGateway(e) => e.name,
            FlowNodeModel::ParallelGateway(e) => e.name,
        }
    }

    /// The BPMN type name of the node.
    pub open spec fn bpmn_type_name(self) -> Seq<char> {
        match self {
            FlowNodeModel::StartEvent(_) => "bpmn:startEvent"@,
            FlowNodeModel::EndEvent(_) => "bpmn:endEvent"@,
            FlowNodeModel::Task(_) => "bpmn:task"@,
            FlowNodeModel::ServiceTask(_) => "bpmn:serviceTask"@,
            FlowNodeModel::ScriptTask(_) => "bpmn:scriptTask"@,
            FlowNodeModel::ExclusiveGateway(_) => "bpmn:exclusiveGateway"@,
            FlowNodeModel::ParallelGateway(_) => "bpmn:parallelGateway"@,
        }
    }

    /// The incoming flow references (none for a start event).
    pub open spec fn incoming(self) -> Seq<Seq<char>> {
        match self {
            FlowNodeModel::StartEvent(_) => Seq::empty(),
            FlowNodeModel::EndEvent(e) => e.incoming,
            FlowNodeModel::Task(e) => e.incoming,
            FlowNodeModel::ServiceTask(e) => e.incoming,
            FlowNodeModel::ScriptTask(e) => e.incoming,
            FlowNodeModel::ExclusiveGateway(e) => e.incoming,
            FlowNodeModel::ParallelGateway(e) => e.incoming,
        }
    }

    /// The outgoing flow references (none for an end event).
    pub open spec fn outgoing(self) -> Seq<Seq<char>> {
        match self {
            FlowNodeModel::StartEvent(e) => e.outgoing,
            FlowNodeModel::EndEvent(_) => Seq::empty(),
            FlowNodeModel::Task(e) => e.outgoing,
            FlowNodeModel::ServiceTask(e) => e.outgoing,
            FlowNodeModel::ScriptTask(e) => e.outgoing,
            FlowNodeModel::ExclusiveGateway(e) => e.outgoing,
            FlowNodeModel::ParallelGateway(e) => e.outgoing,
        }
    }
}

impl View for FlowNode {
    type V = FlowNodeModel;

    open spec fn view(&self) -> FlowNodeModel {
        match self {
            FlowNode::StartEvent(e) => FlowNodeModel::StartEvent(e@),
            FlowNode::EndEvent(e) => FlowNodeModel::EndEvent(e@),
            FlowNode::Task(e) => FlowNodeModel::Task(e@),
            FlowNode::ServiceTask(e) => FlowNodeModel::ServiceTask(e@),
            FlowNode::ScriptTask(e) => FlowNodeModel::ScriptTask(e@),
            FlowNode::ExclusiveGateway(e) => FlowNodeModel::ExclusiveGateway(e@),
            FlowNode::ParallelGateway(e) => FlowNodeModel::ParallelGateway(e@),
        }
    }
}

impl DeepView for FlowNode {
    type V = FlowNodeModel;

    open spec fn deep_view(&self) -> FlowNodeModel {
        self@
    }
}

impl Clone for FlowNode {
    fn clone(&self) -> (r: Self)
        ensures
            r@ == self@,
    {
        match self {
            FlowNode::StartEvent(e) => FlowNode::StartEvent(e.clone()),
            FlowNode::EndEvent(e) => FlowNode::EndEvent(e.clone()),
            FlowNode::Task(e) => FlowNode::Task(e.clone()),
            FlowNode::ServiceTask(e) => FlowNode::ServiceTask(e.clone()),
            FlowNode::ScriptTask(e) => FlowNode::ScriptTask(e.clone()),
            FlowNode::ExclusiveGateway(e) => FlowNode::ExclusiveGateway(e.clone()),
            FlowNode::ParallelGateway(e) => FlowNode::ParallelGateway(e.clone()),
        }
    }
}

impl Duplicate for FlowNode {
    fn duplicate(&self) -> (r: Self) {
        self.clone()
    }
}

impl FlowNode {
    /// The id of this node, as the string it is stored in.
    pub fn id_string(&self) -> (r: &String)
        ensures
            r@ == self@.id(),
    {
        match self {
            FlowNode::StartEvent(e) => &e.id,
            FlowNode::EndEvent(e) => &e.id,
            FlowNode::Task(e) => &e.id,
            FlowNode::ServiceTask(e) => &e.id,
            FlowNode::ScriptTask(e) => &e.id,
            FlowNode::ExclusiveGateway(e) => &e.id,
            FlowNode::ParallelGateway(e) => &e.id,
        }
    }

    /// The id of this node.
    pub fn id(&self) -> (r: &str)
        ensures
            r@ == self@.id(),
    {
        self.id_string().as_str()
    }

    /// The name of this node.
    pub fn name(&self) -> (r: Option<&str>)
        ensures
            r.deep_view() == self@.name(),
    {
        let n = match self {
            FlowNode::StartEvent(e) => &e.name,
            FlowNode::EndEvent(e) => &e.name,
            FlowNode::Task(e) => &e.name,
            FlowNode::ServiceTask(e) => &e.name,
            FlowNode::ScriptTask(e) => &e.name,
            FlowNode::ExclusiveGateway(e) => &e.name,
            FlowNode::ParallelGateway(e) => &e.name,
        };
        match n {
            Some(s) => Some(s.as_str()),
            None => None,
        }
    }

    /// The BPMN type name (e.g. "bpmn:startEvent").
    pub fn bpmn_type_name(&self) -> (r: &'static str)
        ensures
            r@ == self@.bpmn_type_name(),
    {
        match self {
            FlowNode::StartEvent(_) => "bpmn:startEvent",
            FlowNode::EndEvent(_) => "bpmn:endEvent",
            FlowNode::Task(_) => "bpmn:task",
            FlowNode::ServiceTask(_) => "bpmn:serviceTask",
            FlowNode::ScriptTask(_) => "bpmn:scriptTask",
            FlowNode::ExclusiveGateway(_) => "bpmn:exclusiveGateway",
            FlowNode::ParallelGateway(_) => "bpmn:parallelGateway",
        }
    }

    /// The incoming flow references.
    pub fn incoming(&self) -> (r: &[String])
        ensures
            r.deep_view() == self@.incoming(),
    {
        match self {
            FlowNode::StartEvent(_) => empty_strings(),
            FlowNode::EndEvent(e) => e.incoming.as_slice(),
            FlowNode::Task(e) => e.incoming.as_slice(),
            FlowNode::ServiceTask(e) => e.incoming.as_slice(),
            FlowNode::ScriptTask(e) => e.incoming.as_slice(),
            FlowNode::ExclusiveGateway(e) => e.incoming.as_slice(),
            FlowNode::ParallelGateway(e) => e.incoming.as_slice(),
        }
    }

    /// The outgoing flow references.
    pub fn outgoing(&self) -> (r: &[String])
        ensures
            r.deep_view() == self@.outgoing(),
    {
        match self {
            FlowNode::StartEvent(e) => e.outgoing.as_slice(),
            FlowNode::EndEvent(_) => empty_strings(),
            FlowNode::Task(e) => e.outgoing.as_slice(),
            FlowNode::ServiceTask(e) => e.outgoing.as_slice(),
            FlowNode::ScriptTask(e) => e.outgoing.as_slice(),
            FlowNode::ExclusiveGateway(e) => e.outgoing.as_slice(),
            FlowNode::ParallelGateway(e) => e.outgoing.as_slice(),
        }
    }
}

/// The empty list of references.
fn empty_strings() -> (r: &'static [String])
    ensures
        r.deep_view() == Seq::<Seq<char>>::empty(),
{
    let r: &'static [String] = &[];
    assert(r.deep_view() =~= Seq::<Seq<char>>::empty());
    r
}

/// Elements that become a flow node.
pub trait IntoFlowNode: Duplicate {
    spec fn node_model(m: Self::V) -> FlowNodeModel;

    fn into_flow_node(self) -> (r: FlowNode)
        ensures
            r@ == Self::node_model(self.deep_view()),
    ;
}

impl IntoFlowNode for StartEvent {
    open spec fn node_model(m: Self::V) -> FlowNodeModel {
        FlowNodeModel::StartEvent(m)
    }

    fn into_flow_node(self) -> (r: FlowNode) {
        FlowNode::StartEvent(self)
    }
}

impl IntoFlowNode for EndEvent {
    open spec fn node_model(m: Self::V) -> FlowNodeModel {
        FlowNodeModel::EndEvent(m)
    }

    fn into_flow_node(self) -> (r: FlowNode) {
        FlowNode::EndEvent(self)
    }
}

impl IntoFlowNode for Task {
    open spec fn node_model(m: Self::V) -> FlowNodeModel {
        FlowNodeModel::Task(m)
    }

    fn into_flow_node(self) -> (r: FlowNode) {
        FlowNode::Task(self)
    }
}

impl IntoFlowNode for ServiceTask {
    open spec fn node_model(m: Self::V) -> FlowNodeModel {
        FlowNodeModel::ServiceTask(m)
    }

    fn into_flow_node(self) -> (r: FlowNode) {
        FlowNode::ServiceTask(self)
    }
}

impl IntoFlowNode for ScriptTask {
    open spec fn node_model(m: Self::V) -> FlowNodeModel {
        FlowNodeModel::ScriptTask(m)
    }

    fn into_flow_node(self) -> (r: FlowNode) {
        FlowNode::ScriptTask(self)
    }
}

impl IntoFlowNode for ExclusiveGateway {
    open spec fn node_model(m: Self::V) -> FlowNodeModel {
        FlowNodeModel::ExclusiveGateway(m)
    }

    fn into_flow_node(self) -> (r: FlowNode) {
        FlowNode::ExclusiveGateway(self)
    }
}

impl IntoFlowNode for ParallelGateway {
    open spec fn node_model(m: Self::V) -> FlowNodeModel {
        FlowNodeModel::ParallelGateway(m)
    }

    fn into_flow_node(self) -> (r: FlowNode) {
        FlowNode::ParallelGateway(self)
    }
}

/// Appends a copy of every element of `v`, as a flow node, to `out`.
fn push_nodes<T: IntoFlowNode>(out: &mut Vec<FlowNode>, v: &Vec<T>)
    ensures
        final(out).deep_view() == old(out).deep_view() + v.deep_view().map_values(
            |m: T::V| T::node_model(m),
        ),
{
    let ghost base = out.deep_view();
    let mut i: usize = 0;
    while i < v.len()
        invariant
            i <= v.len(),
            out.deep_view() == base + v.deep_view().take(i as int).map_values(
                |m: T::V| T::node_model(m),
            ),
        decreases v.len() - i,
    {
        let ghost prev = out.deep_view();
        let c = v[i].duplicate();
        out.push(c.into_flow_node());
        assert(out.deep_view() =~= prev.push(T::node_model(v.deep_view()[i as int])));
        i = i + 1;
        assert(out.deep_view() =~= base + v.deep_view().take(i as int).map_values(
            |m: T::V| T::node_model(m),
        ));
    }
    assert(v.deep_view().take(i as int) =~= v.deep_view());
}

impl FlowElementsModel {
    /// The flow nodes in the order: start events, end events, tasks, service
    /// tasks, script tasks, exclusive gateways, parallel gateways.
    pub open spec fn nodes(self) -> Seq<FlowNodeModel> {
        self.start_events.map_values(|e: StartEventModel| FlowNodeModel::StartEvent(e))
            + self.end_events.map_values(|e: EndEventModel| FlowNodeModel::EndEvent(e))
            + self.tasks.map_values(|e: TaskModel| FlowNodeModel::Task(e))
            + self.service_tasks.map_values(|e: ServiceTaskModel| FlowNodeModel::ServiceTask(e))
            + self.script_tasks.map_values(|e: ScriptTaskModel| FlowNodeModel::ScriptTask(e))
            + self.exclusive_gateways.map_values(|e: ExclusiveGatewayModel| FlowNodeModel::ExclusiveGateway(e))
            + self.parallel_gateways.map_values(|e: ParallelGatewayModel| FlowNodeModel::ParallelGateway(e))
    }
}

impl FlowElements {
    /// All flow nodes (copied), in the order: start events, end events,
    /// tasks, service tasks, script tasks, exclusive gateways, parallel
    /// gateways.
    pub fn nodes(&self) -> (r: Vec<FlowNode>)
        ensures
            r.deep_view() == self@.nodes(),
    {
        let mut out: Vec<FlowNode> = Vec::new();
        push_nodes(&mut out, &self.start_events);
        push_nodes(&mut out, &self.end_events);
        push_nodes(&mut out, &self.tasks);
        push_nodes(&mut out, &self.service_tasks);
        push_nodes(&mut out, &self.script_tasks);
        push_nodes(&mut out, &self.exclusive_gateways);
        push_nodes(&mut out, &self.parallel_gateways);
        assert(out.deep_view() =~= self@.nodes());
        out
    }
}

impl ProcessModel {
    /// The flow elements of the process.
    pub open spec fn elements(self) -> FlowElementsModel {
        FlowElementsModel {
            start_events: self.start_events,
            end_events: self.end_events,
            tasks: self.tasks,
            service_tasks: self.service_tasks,
            script_tasks: self.script_tasks,
            exclusive_gateways: self.exclusive_gateways,
            parallel_gateways: self.parallel_gateways,
            sequence_flows: self.sequence_flows,
        }
    }
}

impl Process {
    /// A copy of all flow elements of the process.
    pub fn flow_elements(&self) -> (r: FlowElements)
        ensures
            r@ == self@.elements(),
    {
        FlowElements {
            start_events: copy_vec(&self.start_events),
            end_events: copy_vec(&self.end_events),
            tasks: copy_vec(&self.tasks),
            service_tasks: copy_vec(&self.service_tasks),
            script_tasks: copy_vec(&self.script_tasks),
            exclusive_gateways: copy_vec(&self.exclusive_gateways),
            parallel_gateways: copy_vec(&self.parallel_gateways),
            sequence_flows: copy_vec(&self.sequence_flows),
        }
    }
}

} // verus!
