//! The process elements of the neutral domain layer.

use vstd::prelude::*;
use crate::text::{copy_opt_string, copy_string, copy_strings, copy_vec, Duplicate};

verus! {

/// A start event: the entry point of a process.
pub struct StartEvent {
    pub id: String,
    pub name: Option<String>,
    pub outgoing: Vec<String>,
    pub documentation: Option<String>,
}

/// A end event: an exit point of a process.
pub struct EndEvent {
    pub id: String,
    pub name: Option<String>,
    pub incoming: Vec<String>,
    pub documentation: Option<String>,
}

/// A generic task.
pub struct Task {
    pub id: String,
    pub name: Option<String>,
    pub incoming: Vec<String>,
    pub outgoing: Vec<String>,
    pub documentation: Option<String>,
}

/// A service task (only its identity matters to the domain layer).
pub struct ServiceTask {
    pub id: String,
}

/// A script task (only its identity matters to the domain layer).
pub struct ScriptTask {
    pub id: String,
}

/// An exclusive (XOR) gateway.
pub struct ExclusiveGateway {
    pub id: String,
}

/// A parallel (AND) gateway.
pub struct ParallelGateway {
    pub id: String,
}

/// A directed edge between two flow nodes, given by their ids.
pub struct SequenceFlow {
    pub id: String,
    pub source_ref: String,
    pub target_ref: String,
}

/// Abstract value of a [`StartEvent`].
pub struct StartEventModel {
    pub id: Seq<char>,
    pub name: Option<Seq<char>>,
    pub outgoing: Seq<Seq<char>>,
    pub documentation: Option<Seq<char>>,
}

/// Abstract value of an [`EndEvent`].
pub struct EndEventModel {
    pub id: Seq<char>,
    pub name: Option<Seq<char>>,
    pub incoming: Seq<Seq<char>>,
    pub documentation: Option<Seq<char>>,
}

/// Abstract value of a [`Task`].
pub struct TaskModel {
    pub id: Seq<char>,
    pub name: Option<Seq<char>>,
    pub incoming: Seq<Seq<char>>,
    pub outgoing: Seq<Seq<char>>,
    pub documentation: Option<Seq<char>>,
}

/// Abstract value of a [`SequenceFlow`].
pub struct SequenceFlowModel {
    pub id: Seq<char>,
    pub source_ref: Seq<char>,
    pub target_ref: Seq<char>,
}

impl View for StartEvent {
    type V = StartEventModel;

    open spec fn view(&self) -> StartEventModel {
        StartEventModel {
            id: self.id@,
            name: self.name.deep_view(),
            outgoing: self.outgoing.deep_view(),
            documentation: self.documentation.deep_view(),
        }
    }
}

impl DeepView for StartEvent {
    type V = StartEventModel;

    open spec fn deep_view(&self) -> StartEventModel {
        self@
    }
}

impl View for EndEvent {
    type V = EndEventModel;

    open spec fn view(&self) -> EndEventModel {
        EndEventModel {
            id: self.id@,
            name: self.name.deep_view(),
            incoming: self.incoming.deep_view(),
            documentation: self.documentation.deep_view(),
        }
    }
}

impl DeepView for EndEvent {
    type V = EndEventModel;

    open spec fn deep_view(&self) -> EndEventModel {
        self@
    }
}

impl View for Task {
    type V = TaskModel;

    open spec fn view(&self) -> TaskModel {
        TaskModel {
            id: self.id@,
            name: self.name.deep_view(),
            incoming: self.incoming.deep_view(),
            outgoing: self.outgoing.deep_view(),
            documentation: self.documentation.deep_view(),
        }
    }
}

impl DeepView for Task {
    type V = TaskModel;

    open spec fn deep_view(&self) -> TaskModel {
        self@
    }
}

impl View for ServiceTask {
    type V = Seq<char>;

    open spec fn view(&self) -> Seq<char> {
        self.id@
    }
}

impl DeepView for ServiceTask {
    type V = Seq<char>;

    open spec fn deep_view(&self) -> Seq<char> {
        self@
    }
}

impl View for ScriptTask {
    type V = Seq<char>;

    open spec fn view(&self) -> Seq<char> {
        self.id@
    }
}

impl DeepView for ScriptTask {
    type V = Seq<char>;

    open spec fn deep_view(&self) -> Seq<char> {
        self@
    }
}

impl View for ExclusiveGateway {
    type V = Seq<char>;

    open spec fn view(&self) -> Seq<char> {
        self.id@
    }
}

impl DeepView for ExclusiveGateway {
    type V = Seq<char>;

    open spec fn deep_view(&self) -> Seq<char> {
        self@
    }
}

impl View for ParallelGateway {
    type V = Seq<char>;

    open spec fn view(&self) -> Seq<char> {
        self.id@
    }
}

impl DeepView for ParallelGateway {
    type V = Seq<char>;

    open spec fn deep_view(&self) -> Seq<char> {
        self@
    }
}

impl View for SequenceFlow {
    type V = SequenceFlowModel;

    open spec fn view(&self) -> SequenceFlowModel {
        SequenceFlowModel { id: self.id@, source_ref: self.source_ref@, target_ref: self.target_ref@ }
    }
}

impl DeepView for SequenceFlow {
    type V = SequenceFlowModel;

    open spec fn deep_view(&self) -> SequenceFlowModel {
        self@
    }
}

impl Clone for StartEvent {
    fn clone(&self) -> (r: Self)
        ensures
            r@ == self@,
    {
        StartEvent {
            id: copy_string(&self.id),
            name: copy_opt_string(&self.name),
            outgoing: copy_strings(&self.outgoing),
            documentation: copy_opt_string(&self.documentation),
        }
    }
}

impl Clone for EndEvent {
    fn clone(&self) -> (r: Self)
        ensures
            r@ == self@,
    {
        EndEvent {
            id: copy_string(&self.id),
            name: copy_opt_string(&self.name),
            incoming: copy_strings(&self.incoming),
            documentation: copy_opt_string(&self.documentation),
        }
    }
}

impl Clone for Task {
    fn clone(&self) -> (r: Self)
        ensures
            r@ == self@,
    {
        Task {
            id: copy_string(&self.id),
            name: copy_opt_string(&self.name),
            incoming: copy_strings(&self.incoming),
            outgoing: copy_strings(&self.outgoing),
            documentation: copy_opt_string(&self.documentation),
        }
    }
}

impl Clone for ServiceTask {
    fn clone(&self) -> (r: Self)
        ensures
            r@ == self@,
    {
        ServiceTask { id: copy_string(&self.id) }
    }
}

impl Clone for ScriptTask {
    fn clone(&self) -> (r: Self)
        ensures
            r@ == self@,
    {
        ScriptTask { id: copy_string(&self.id) }
    }
}

impl Clone for ExclusiveGateway {
    fn clone(&self) -> (r: Self)
        ensures
            r@ == self@,
    {
        ExclusiveGateway { id: copy_string(&self.id) }
    }
}

impl Clone for ParallelGateway {
    fn clone(&self) -> (r: Self)
        ensures
            r@ == self@,
    {
        ParallelGateway { id: copy_string(&self.id) }
    }
}

impl Clone for SequenceFlow {
    fn clone(&self) -> (r: Self)
        ensures
            r@ == self@,
    {
        SequenceFlow {
            id: copy_string(&self.id),
            source_ref: copy_string(&self.source_ref),
            target_ref: copy_string(&self.target_ref),
        }
    }
}


/// Any flow node of a process.
pub enum FlowNode {
    StartEvent(StartEvent),
    EndEvent(EndEvent),
    Task(Task),
    ServiceTask(ServiceTask),
    ScriptTask(ScriptTask),
    ExclusiveGateway(ExclusiveGateway),
    ParallelGateway(ParallelGateway),
}

/// Abstract value of a [`FlowNode`].
pub enum FlowNodeModel {
    StartEvent(StartEventModel),
    EndEvent(EndEventModel),
    Task(TaskModel),
    ServiceTask(Seq<char>),
    ScriptTask(Seq<char>),
    ExclusiveGateway(Seq<char>),
    ParallelGateway(Seq<char>),
}

impl FlowNodeModel {
    /// The id of the node.
    pub open spec fn id(self) -> Seq<char> {
        match self {
            FlowNodeModel::StartEvent(e) => e.id,
            FlowNodeModel::EndEvent(e) => e.id,
            FlowNodeModel::Task(t) => t.id,
            FlowNodeModel::ServiceTask(id) => id,
            FlowNodeModel::ScriptTask(id) => id,
            FlowNodeModel::ExclusiveGateway(id) => id,
            FlowNodeModel::ParallelGateway(id) => id,
        }
    }
}

impl View for FlowNode {
    type V = FlowNodeModel;

    open spec fn view(&self) -> FlowNodeModel {
        match self {
            FlowNode::StartEvent(e) => FlowNodeModel::StartEvent(e@),
            FlowNode::EndEvent(e) => FlowNodeModel::EndEvent(e@),
            FlowNode::Task(t) => FlowNodeModel::Task(t@),
            FlowNode::ServiceTask(t) => FlowNodeModel::ServiceTask(t@),
            FlowNode::ScriptTask(t) => FlowNodeModel::ScriptTask(t@),
            FlowNode::ExclusiveGateway(g) => FlowNodeModel::ExclusiveGateway(g@),
            FlowNode::ParallelGateway(g) => FlowNodeModel::ParallelGateway(g@),
        }
    }
}

impl DeepView for FlowNode {
    type V = FlowNodeModel;

    open spec fn deep_view(&self) -> FlowNodeModel {
        self@
    }
}

impl Clone for FlowNode {
    fn clone(&self) -> (r: Self)
        ensures
            r@ == self@,
    {
        match self {
            FlowNode::StartEvent(e) => FlowNode::StartEvent(e.clone()),
            FlowNode::EndEvent(e) => FlowNode::EndEvent(e.clone()),
            FlowNode::Task(t) => FlowNode::Task(t.clone()),
            FlowNode::ServiceTask(t) => FlowNode::ServiceTask(t.clone()),
            FlowNode::ScriptTask(t) => FlowNode::ScriptTask(t.clone()),
            FlowNode::ExclusiveGateway(g) => FlowNode::ExclusiveGateway(g.clone()),
            FlowNode::ParallelGateway(g) => FlowNode::ParallelGateway(g.clone()),
        }
    }
}

impl FlowNode {
    /// The id of this node, as the string it is stored in.
    pub fn id_string(&self) -> (r: &String)
        ensures
            r@ == self@.id(),
    {
        match self {
            FlowNode::StartEvent(e) => &e.id,
            FlowNode::EndEvent(e) => &e.id,
            FlowNode::Task(t) => &t.id,
            FlowNode::ServiceTask(t) => &t.id,
            FlowNode::ScriptTask(t) => &t.id,
            FlowNode::ExclusiveGateway(g) => &g.id,
            FlowNode::ParallelGateway(g) => &g.id,
        }
    }

    /// The id of this node.
    pub fn id(&self) -> (r: &str)
        ensures
            r@ == self@.id(),
    {
        match self {
            FlowNode::StartEvent(e) => e.id.as_str(),
            FlowNode::EndEvent(e) => e.id.as_str(),
            FlowNode::Task(t) => t.id.as_str(),
            FlowNode::ServiceTask(t) => t.id.as_str(),
            FlowNode::ScriptTask(t) => t.id.as_str(),
            FlowNode::ExclusiveGateway(g) => g.id.as_str(),
            FlowNode::ParallelGateway(g) => g.id.as_str(),
        }
    }
}

/// All flow elements of a process, grouped by kind.
pub struct FlowElements {
    pub start_events: Vec<StartEvent>,
    pub end_events: Vec<EndEvent>,
    pub tasks: Vec<Task>,
    pub service_tasks: Vec<ServiceTask>,
    pub script_tasks: Vec<ScriptTask>,
    pub exclusive_gateways: Vec<ExclusiveGateway>,
    pub parallel_gateways: Vec<ParallelGateway>,
    pub sequence_flows: Vec<SequenceFlow>,
}

/// Abstract value of a [`FlowElements`].
pub struct FlowElementsModel {
    pub start_events: Seq<StartEventModel>,
    pub end_events: Seq<EndEventModel>,
    pub tasks: Seq<TaskModel>,
    pub service_tasks: Seq<Seq<char>>,
    pub script_tasks: Seq<Seq<char>>,
    pub exclusive_gateways: Seq<Seq<char>>,
    pub parallel_gateways: Seq<Seq<char>>,
    pub sequence_flows: Seq<SequenceFlowModel>,
}

impl View for FlowElements {
    type V = FlowElementsModel;

    open spec fn view(&self) -> FlowElementsModel {
        FlowElementsModel {
            start_events: self.start_events.deep_view(),
            end_events: self.end_events.deep_view(),
            tasks: self.tasks.deep_view(),
            service_tasks: self.service_tasks.deep_view(),
            script_tasks: self.script_tasks.deep_view(),
            exclusive_gateways: self.exclusive_gateways.deep_view(),
            parallel_gateways: self.parallel_gateways.deep_view(),
            sequence_flows: self.sequence_flows.deep_view(),
        }
    }
}

impl FlowElementsModel {
    /// The flow nodes in the order: start events, end events, tasks, service
    /// tasks, script tasks, exclusive gateways, parallel gateways.
    pub open spec fn nodes(self) -> Seq<FlowNodeModel> {
        self.start_events.map_values(|e: StartEventModel| FlowNodeModel::StartEvent(e))
            + self.end_events.map_values(|e: EndEventModel| FlowNodeModel::EndEvent(e))
            + self.tasks.map_values(|t: TaskModel| FlowNodeModel::Task(t))
            + self.service_tasks.map_values(|t: Seq<char>| FlowNodeModel::ServiceTask(t))
            + self.script_tasks.map_values(|t: Seq<char>| FlowNodeModel::ScriptTask(t))
            + self.exclusive_gateways.map_values(|g: Seq<char>| FlowNodeModel::ExclusiveGateway(g))
            + self.parallel_gateways.map_values(|g: Seq<char>| FlowNodeModel::ParallelGateway(g))
    }
}

/// Elements that become a flow node.
pub trait IntoFlowNode: Duplicate {
    spec fn node_model(m: Self::V) -> FlowNodeModel;

    fn into_flow_node(self) -> (r: FlowNode)
        ensures
            r@ == Self::node_model(self.deep_view()),
    ;
}

/// Appends a copy of every element of `v`, as a flow node, to `out`.
fn push_nodes<T: IntoFlowNode>(out: &mut Vec<FlowNode>, v: &Vec<T>)
    ensures
        final(out).deep_view() == old(out).deep_view() + v.deep_view().map_values(
            |m: T::V| T::node_model(m),
        ),
{
    let ghost base = out.deep_view();
    let mut i: usize = 0;
    while i < v.len()
        invariant
            i <= v.len(),
            out.deep_view() == base + v.deep_view().take(i as int).map_values(
                |m: T::V| T::node_model(m),
            ),
        decreases v.len() - i,
    {
        let ghost prev = out.deep_view();
        let c = v[i].duplicate();
        out.push(c.into_flow_node());
        assert(out.deep_view() =~= prev.push(T::node_model(v.deep_view()[i as int])));
        i = i + 1;
        assert(out.deep_view() =~= base + v.deep_view().take(i as int).map_values(
            |m: T::V| T::node_model(m),
        ));
    }
    assert(v.deep_view().take(i as int) =~= v.deep_view());
}

impl Duplicate for StartEvent {
    fn duplicate(&self) -> (r: Self) {
        self.clone()
    }
}

impl IntoFlowNode for StartEvent {
    open spec fn node_model(m: Self::V) -> FlowNodeModel {
        FlowNodeModel::StartEvent(m)
    }

    fn into_flow_node(self) -> (r: FlowNode) {
        FlowNode::StartEvent(self)
    }
}

impl Duplicate for EndEvent {
    fn duplicate(&self) -> (r: Self) {
        self.clone()
    }
}

impl IntoFlowNode for EndEvent {
    open spec fn node_model(m: Self::V) -> FlowNodeModel {
        FlowNodeModel::EndEvent(m)
    }

    fn into_flow_node(self) -> (r: FlowNode) {
        FlowNode::EndEvent(self)
    }
}

impl Duplicate for Task {
    fn duplicate(&self) -> (r: Self) {
        self.clone()
    }
}

impl IntoFlowNode for Task {
    open spec fn node_model(m: Self::V) -> FlowNodeModel {
        FlowNodeModel::Task(m)
    }

    fn into_flow_node(self) -> (r: FlowNode) {
        FlowNode::Task(self)
    }
}

impl Duplicate for ServiceTask {
    fn duplicate(&self) -> (r: Self) {
        self.clone()
    }
}

impl IntoFlowNode for ServiceTask {
    open spec fn node_model(m: Self::V) -> FlowNodeModel {
        FlowNodeModel::ServiceTask(m)
    }

    fn into_flow_node(self) -> (r: FlowNode) {
        FlowNode::ServiceTask(self)
    }
}

impl Duplicate for ScriptTask {
    fn duplicate(&self) -> (r: Self) {
        self.clone()
    }
}

impl IntoFlowNode for ScriptTask {
    open spec fn node_model(m: Self::V) -> FlowNodeModel {
        FlowNodeModel::ScriptTask(m)
    }

    fn into_flow_node(self) -> (r: FlowNode) {
        FlowNode::ScriptTask(self)
    }
}

impl Duplicate for ExclusiveGateway {
    fn duplicate(&self) -> (r: Self) {
        self.clone()
    }
}

impl IntoFlowNode for ExclusiveGateway {
    open spec fn node_model(m: Self::V) -> FlowNodeModel {
        FlowNodeModel::ExclusiveGateway(m)
    }

    fn into_flow_node(self) -> (r: FlowNode) {
        FlowNode::ExclusiveGateway(self)
    }
}

impl Duplicate for ParallelGateway {
    fn duplicate(&self) -> (r: Self) {
        self.clone()
    }
}

impl IntoFlowNode for ParallelGateway {
    open spec fn node_model(m: Self::V) -> FlowNodeModel {
        FlowNodeModel::ParallelGateway(m)
    }

    fn into_flow_node(self) -> (r: FlowNode) {
        FlowNode::ParallelGateway(self)
    }
}

impl Duplicate for SequenceFlow {
    fn duplicate(&self) -> (r: Self) {
        self.clone()
    }
}

impl Duplicate for FlowNode {
    fn duplicate(&self) -> (r: Self) {
        self.clone()
    }
}

impl FlowElements {
    /// All flow nodes (copied), in the order: start events, end events,
    /// tasks, service tasks, script tasks, exclusive gateways, parallel
    /// gateways.
    pub fn nodes(&self) -> (r: Vec<FlowNode>)
        ensures
            r.deep_view() == self@.nodes(),
    {
        let mut out: Vec<FlowNode> = Vec::new();
        push_nodes(&mut out, &self.start_events);
        push_nodes(&mut out, &self.end_events);
        push_nodes(&mut out, &self.tasks);
        push_nodes(&mut out, &self.service_tasks);
        push_nodes(&mut out, &self.script_tasks);
        push_nodes(&mut out, &self.exclusive_gateways);
        push_nodes(&mut out, &self.parallel_gateways);
        assert(out.deep_view() =~= self@.nodes());
        out
    }
}

/// A process: the container of all flow elements.
pub struct Process {
    pub id: String,
    pub name: Option<String>,
    pub is_executable: Option<bool>,
    pub process_type: Option<String>,
    pub documentation: Option<String>,
    pub start_events: Vec<StartEvent>,
    pub end_events: Vec<EndEvent>,
    pub tasks: Vec<Task>,
    pub service_tasks: Vec<ServiceTask>,
    pub script_tasks: Vec<ScriptTask>,
    pub exclusive_gateways: Vec<ExclusiveGateway>,
    pub parallel_gateways: Vec<ParallelGateway>,
    pub sequence_flows: Vec<SequenceFlow>,
}

/// Abstract value of a [`Process`].
pub struct ProcessModel {
    pub id: Seq<char>,
    pub name: Option<Seq<char>>,
    pub is_executable: Option<bool>,
    pub process_type: Option<Seq<char>>,
    pub documentation: Option<Seq<char>>,
    pub elements: FlowElementsModel,
}

impl View for Process {
    type V = ProcessModel;

    open spec fn view(&self) -> ProcessModel {
        ProcessModel {
            id: self.id@,
            name: self.name.deep_view(),
            is_executable: self.is_executable,
            process_type: self.process_type.deep_view(),
            documentation: self.documentation.deep_view(),
            elements: FlowElementsModel {
                start_events: self.start_events.deep_view(),
                end_events: self.end_events.deep_view(),
                tasks: self.tasks.deep_view(),
                service_tasks: self.service_tasks.deep_view(),
                script_tasks: self.script_tasks.deep_view(),
                exclusive_gateways: self.exclusive_gateways.deep_view(),
                parallel_gateways: self.parallel_gateways.deep_view(),
                sequence_flows: self.sequence_flows.deep_view(),
            },
        }
    }
}

impl Process {
    /// A copy of all flow elements of the process.
    pub fn flow_elements(&self) -> (r: FlowElements)
        ensures
            r@ == self@.elements,
    {
        FlowElements {
            start_events: copy_vec(&self.start_events),
            end_events: copy_vec(&self.end_events),
            tasks: copy_vec(&self.tasks),
            service_tasks: copy_vec(&self.service_tasks),
            script_tasks: copy_vec(&self.script_tasks),
            exclusive_gateways: copy_vec(&self.exclusive_gateways),
            parallel_gateways: copy_vec(&self.parallel_gateways),
            sequence_flows: copy_vec(&self.sequence_flows),
        }
    }
}

} // verus!
