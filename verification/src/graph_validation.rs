//! Conversion of a BPMN process into the neutral domain process on which
//! graph validation runs.

use vstd::prelude::*;
use crate::bpmn::types as bpmn;
use crate::domain::bpmn as domain;
use crate::text::{copy_opt, copy_string, copy_vec};

verus! {

/// BPMN elements that have a counterpart in the neutral domain layer.
pub trait ToDomain: DeepView {
    type Target: DeepView;

    spec fn domain_of(m: Self::V) -> <Self::Target as DeepView>::V;

    fn to_domain(&self) -> (r: Self::Target)
        ensures
            r.deep_view() == Self::domain_of(self.deep_view()),
    ;
}

/// The documentation text of an optional documentation element.
fn doc_text(d: &Option<bpmn::Documentation>) -> (r: Option<String>)
    ensures
        r.deep_view() == d.deep_view(),
{
    match d {
        Some(doc) => Some(copy_string(&doc.text)),
        None => None,
    }
}

impl ToDomain for bpmn::StartEvent {
    type Target = domain::StartEvent;

    open spec fn domain_of(m: bpmn::StartEventModel) -> domain::StartEventModel {
        domain::StartEventModel { id: m.id, name: m.name, outgoing: m.outgoing, documentation: m.documentation }
    }

    fn to_domain(&self) -> (r: domain::StartEvent) {
        let r = domain::StartEvent {
            id: copy_string(&self.id),
            name: copy_opt(&self.name),
            outgoing: copy_vec(&self.outgoing),
            documentation: doc_text(&self.documentation),
        };
        assert(r.deep_view() == Self::domain_of(self.deep_view()));
        r
    }
}

impl ToDomain for bpmn::EndEvent {
    type Target = domain::EndEvent;

    open spec fn domain_of(m: bpmn::EndEventModel) -> domain::EndEventModel {
        domain::EndEventModel { id: m.id, name: m.name, incoming: m.incoming, documentation: m.documentation }
    }

    fn to_domain(&self) -> (r: domain::EndEvent) {
        let r = domain::EndEvent {
            id: copy_string(&self.id),
            name: copy_opt(&self.name),
            incoming: copy_vec(&self.incoming),
            documentation: doc_text(&self.documentation),
        };
        assert(r.deep_view() == Self::domain_of(self.deep_view()));
        r
    }
}

impl ToDomain for bpmn::Task {
    type Target = domain::Task;

    open spec fn domain_of(m: bpmn::TaskModel) -> domain::TaskModel {
        domain::TaskModel {
            id: m.id,
            name: m.name,
            incoming: m.incoming,
            outgoing: m.outgoing,
            documentation: m.documentation,
        }
    }

    fn to_domain(&self) -> (r: domain::Task) {
        let r = domain::Task {
            id: copy_string(&self.id),
            name: copy_opt(&self.name),
            incoming: copy_vec(&self.incoming),
            outgoing: copy_vec(&self.outgoing),
            documentation: doc_text(&self.documentation),
        };
        assert(r.deep_view() == Self::domain_of(self.deep_view()));
        r
    }
}

impl ToDomain for bpmn::ServiceTask {
    type Target = domain::ServiceTask;

    open spec fn domain_of(m: bpmn::ServiceTaskModel) -> Seq<char> {
        m.id
    }

    fn to_domain(&self) -> (r: domain::ServiceTask) {
        let r = domain::ServiceTask { id: copy_string(&self.id) };
        assert(r.deep_view() == Self::domain_of(self.deep_view()));
        r
    }
}

impl ToDomain for bpmn::ScriptTask {
    type Target = domain::ScriptTask;

    open spec fn domain_of(m: bpmn::ScriptTaskModel) -> Seq<char> {
        m.id
    }

    fn to_domain(&self) -> (r: domain::ScriptTask) {
        let r = domain::ScriptTask { id: copy_string(&self.id) };
        assert(r.deep_view() == Self::domain_of(self.deep_view()));
        r
    }
}

impl ToDomain for bpmn::ExclusiveGateway {
    type Target = domain::ExclusiveGateway;

    open spec fn domain_of(m: bpmn::ExclusiveGatewayModel) -> Seq<char> {
        m.id
    }

    fn to_domain(&self) -> (r: domain::ExclusiveGateway) {
        let r = domain::ExclusiveGateway { id: copy_string(&self.id) };
        assert(r.deep_view() == Self::domain_of(self.deep_view()));
        r
    }
}

impl ToDomain for bpmn::ParallelGateway {
    type Target = domain::ParallelGateway;

    open spec fn domain_of(m: bpmn::ParallelGatewayModel) -> Seq<char> {
        m.id
    }

    fn to_domain(&self) -> (r: domain::ParallelGateway) {
        let r = domain::ParallelGateway { id: copy_string(&self.id) };
        assert(r.deep_view() == Self::domain_of(self.deep_view()));
        r
    }
}

impl ToDomain for bpmn::SequenceFlow {
    type Target = domain::SequenceFlow;

    open spec fn domain_of(m: bpmn::SequenceFlowModel) -> domain::SequenceFlowModel {
        domain::SequenceFlowModel { id: m.id, source_ref: m.source_ref, target_ref: m.target_ref }
    }

    fn to_domain(&self) -> (r: domain::SequenceFlow) {
        let r = domain::SequenceFlow {
            id: copy_string(&self.id),
            source_ref: copy_string(&self.source_ref),
            target_ref: copy_string(&self.target_ref),
        };
        assert(r.deep_view() == Self::domain_of(self.deep_view()));
        r
    }
}

/// Every element of `v`, converted.
fn map_to_domain<T: ToDomain>(v: &Vec<T>) -> (r: Vec<T::Target>)
    ensures
        r.deep_view() == v.deep_view().map_values(|m: T::V| T::domain_of(m)),
{
    let mut r: Vec<T::Target> = Vec::new();
    let mut i: usize = 0;
    while i < v.len()
        invariant
            i <= v.len(),
            r.deep_view() == v.deep_view().take(i as int).map_values(|m: T::V| T::domain_of(m)),
        decreases v.len() - i,
    {
        let ghost before = r.deep_view();
        let d = v[i].to_domain();
        r.push(d);
        assert(r.deep_view() =~= before.push(T::domain_of(v.deep_view()[i as int])));
        i = i + 1;
        assert(r.deep_view() =~= v.deep_view().take(i as int).map_values(|m: T::V| T::domain_of(m)));
    }
    assert(v.deep_view().take(i as int) =~= v.deep_view());
    r
}

/// The domain counterpart of a BPMN process model.
pub open spec fn domain_process(p: bpmn::ProcessModel) -> domain::ProcessModel {
    domain::ProcessModel {
        id: p.id,
        name: p.name,
        is_executable: p.is_executable,
        process_type: p.process_type,
        documentation: p.documentation,
        elements: domain::FlowElementsModel {
            start_events: p.start_events.map_values(
                |m: bpmn::StartEventModel| <bpmn::StartEvent as ToDomain>::domain_of(m),
            ),
            end_events: p.end_events.map_values(
                |m: bpmn::EndEventModel| <bpmn::EndEvent as ToDomain>::domain_of(m),
            ),
            tasks: p.tasks.map_values(|m: bpmn::TaskModel| <bpmn::Task as ToDomain>::domain_of(m)),
            service_tasks: p.service_tasks.map_values(
                |m: bpmn::ServiceTaskModel| <bpmn::ServiceTask as ToDomain>::domain_of(m),
            ),
            script_tasks: p.script_tasks.map_values(
                |m: bpmn::ScriptTaskModel| <bpmn::ScriptTask as ToDomain>::domain_of(m),
            ),
            exclusive_gateways: p.exclusive_gateways.map_values(
                |m: bpmn::ExclusiveGatewayModel| <bpmn::ExclusiveGateway as ToDomain>::domain_of(m),
            ),
            parallel_gateways: p.parallel_gateways.map_values(
                |m: bpmn::ParallelGatewayModel| <bpmn::ParallelGateway as ToDomain>::domain_of(m),
            ),
            sequence_flows: p.sequence_flows.map_values(
                |m: bpmn::SequenceFlowModel| <bpmn::SequenceFlow as ToDomain>::domain_of(m),
            ),
        },
    }
}

/// The neutral domain process of a BPMN process: the same ids, names,
/// documentation texts and element lists.
pub fn to_domain_process(p: &bpmn::Process) -> (r: domain::Process)
    ensures
        r@ == domain_process(p@),
{
    let r = domain::Process {
        id: copy_string(&p.id),
        name: copy_opt(&p.name),
        is_executable: p.is_executable,
        process_type: copy_opt(&p.process_type),
        documentation: doc_text(&p.documentation),
        start_events: map_to_domain(&p.start_events),
        end_events: map_to_domain(&p.end_events),
        tasks: map_to_domain(&p.tasks),
        service_tasks: map_to_domain(&p.service_tasks),
        script_tasks: map_to_domain(&p.script_tasks),
        exclusive_gateways: map_to_domain(&p.exclusive_gateways),
        parallel_gateways: map_to_domain(&p.parallel_gateways),
        sequence_flows: map_to_domain(&p.sequence_flows),
    };
    assert(r@ =~= domain_process(p@));
    r
}

} // verus!
