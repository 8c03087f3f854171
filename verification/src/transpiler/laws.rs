//! Properties of the import as a whole.

use vstd::prelude::*;
use crate::bpmn::types::{
    EndEvent, ExclusiveGateway, ParallelGateway, ScriptTask, SequenceFlow, SequenceFlowModel,
    ServiceTask, StartEvent, Task,
};
use crate::transpiler::import::{
    diagram_for, element_entry, import_plan, import_result, mdx_file_name, normalize_flow, plan_len,
    render_entry, render_prefix, ImportDataModel, ImportElement, ImportEntryModel, ImportErrorModel,
    MdxOutputModel, SerializedEntryModel,
};
use crate::transpiler::types::{DefinitionsModel, ManualTask, ProcessModel, UserTask};

verus! {

/// The number of flow elements of a process, all kinds together.
pub open spec fn flow_element_count(p: ProcessModel) -> nat {
    p.start_events.len() + p.end_events.len() + p.tasks.len() + p.manual_tasks.len()
        + p.user_tasks.len() + p.service_tasks.len() + p.script_tasks.len()
        + p.exclusive_gateways.len() + p.parallel_gateways.len() + p.sequence_flows.len()
}

proof fn lemma_render_ok(es: Seq<ImportEntryModel>, ss: Seq<SerializedEntryModel>, n: nat)
    requires
        render_prefix(es, ss, n) is Ok,
    ensures
        render_prefix(es, ss, n)->Ok_0.len() == n,
        forall|i: int| 0 <= i < n ==> #[trigger] render_entry(es[i], ss[i]) is Ok,
        forall|i: int|
            0 <= i < n ==> #[trigger] render_prefix(es, ss, n)->Ok_0[i] == render_entry(es[i], ss[i])->Ok_0,
    decreases n,
{
    if n > 0 {
        lemma_render_ok(es, ss, (n - 1) as nat);
        let outs = render_prefix(es, ss, (n - 1) as nat)->Ok_0;
        let o = render_entry(es[n - 1], ss[n - 1])->Ok_0;
        assert(render_prefix(es, ss, n)->Ok_0 == outs.push(o));
        assert forall|i: int| 0 <= i < n implies #[trigger] render_entry(es[i], ss[i]) is Ok by {
            if i < n - 1 {
                assert(render_entry(es[i], ss[i]) is Ok);
            }
        }
        assert forall|i: int| 0 <= i < n implies #[trigger] render_prefix(es, ss, n)->Ok_0[i] == render_entry(
            es[i],
            ss[i],
        )->Ok_0 by {
            if i < n - 1 {
                assert(outs.push(o)[i] == outs[i]);
                assert(render_prefix(es, ss, (n - 1) as nat)->Ok_0[i] == outs[i]);
            }
        }
    }
}

/// A document without a process cannot be imported, whatever was
/// serialized.
pub proof fn law_import_needs_process(d: DefinitionsModel, ss: Seq<SerializedEntryModel>)
    requires
        d.process is None,
    ensures
        import_result(d, ss) == Err::<Seq<MdxOutputModel>, ImportErrorModel>(ImportErrorModel::NoProcess),
{
}

/// A successful import writes one file for the process and one per flow
/// element, in the planned order: the `i`-th file is named after the
/// `i`-th planned entry, and the first is the process file.
pub proof fn law_import_success(d: DefinitionsModel, ss: Seq<SerializedEntryModel>)
    requires
        import_result(d, ss) is Ok,
    ensures
        d.process is Some,
        import_result(d, ss)->Ok_0.len() == plan_len(d),
        plan_len(d) == 1 + flow_element_count(d.process->Some_0),
        import_result(d, ss)->Ok_0[0].filename == mdx_file_name(d.process->Some_0.id),
        forall|i: int|
            0 <= i < plan_len(d) ==> #[trigger] import_result(d, ss)->Ok_0[i].filename == mdx_file_name(
                import_plan(d)->Ok_0[i].id,
            ),
{
    let es = import_plan(d)->Ok_0;
    lemma_render_ok(es, ss, es.len());
    assert(es[0].id == d.process->Some_0.id);
    assert forall|i: int| 0 <= i < plan_len(d) implies #[trigger] import_result(d, ss)->Ok_0[i].filename
        == mdx_file_name(es[i].id) by {
        assert(render_prefix(es, ss, es.len())->Ok_0[i] == render_entry(es[i], ss[i])->Ok_0);
    }
}

/// An imported sequence flow's condition, if it has one, always names its
/// expression type, and importing it again changes nothing.
pub proof fn law_flow_normalization(f: SequenceFlowModel)
    ensures
        normalize_flow(f).condition_expression matches Some(ce) ==> ce.xsi_type is Some,
        normalize_flow(normalize_flow(f)) == normalize_flow(f),
        normalize_flow(f).id == f.id && normalize_flow(f).source_ref == f.source_ref
            && normalize_flow(f).target_ref == f.target_ref,
{
}

/// The import plans one file per flow element of every kind, each naming
/// the element's own BPMN type: the process file first (type
/// `bpmn:process`, no diagram), then the start events, end events, tasks,
/// manual tasks, user tasks, service tasks, script tasks, exclusive
/// gateways, parallel gateways and sequence flows, each in document order;
/// the `i`-th element of a list is planned under its own id, the BPMN tag
/// of its list, its own value (flows normalized) and its diagram entry.
pub proof fn law_import_plan_per_element(d: DefinitionsModel, p: ProcessModel)
    requires
        d.process == Some(p),
    ensures
        import_plan(d) is Ok,
        import_plan(d)->Ok_0.len() == 1 + p.start_events.len() + p.end_events.len() + p.tasks.len() + p.manual_tasks.len() + p.user_tasks.len() + p.service_tasks.len() + p.script_tasks.len() + p.exclusive_gateways.len() + p.parallel_gateways.len() + p.sequence_flows.len(),
        import_plan(d)->Ok_0[0].id == p.id && import_plan(d)->Ok_0[0].bpmn_type == "bpmn:process"@ && import_plan(d)->Ok_0[0].diagram is None,
        forall|i: int|
            #![trigger p.start_events[i]]
            0 <= i < p.start_events.len() ==> import_plan(d)->Ok_0[(1) + i].id == p.start_events[i].id && import_plan(d)->Ok_0[(1) + i].bpmn_type
                == "bpmn:startEvent"@ && import_plan(d)->Ok_0[(1) + i].diagram == diagram_for(d, p.start_events[i].id) && import_plan(d)->Ok_0[(1) + i].data == ImportDataModel::StartEvent(p.start_events[i]),
        forall|i: int|
            #![trigger p.end_events[i]]
            0 <= i < p.end_events.len() ==> import_plan(d)->Ok_0[(1 + p.start_events.len()) + i].id == p.end_events[i].id && import_plan(d)->Ok_0[(1 + p.start_events.len()) + i].bpmn_type
                == "bpmn:endEvent"@ && import_plan(d)->Ok_0[(1 + p.start_events.len()) + i].diagram == diagram_for(d, p.end_events[i].id) && import_plan(d)->Ok_0[(1 + p.start_events.len()) + i].data == ImportDataModel::EndEvent(p.end_events[i]),
        forall|i: int|
            #![trigger p.tasks[i]]
            0 <= i < p.tasks.len() ==> import_plan(d)->Ok_0[(1 + p.start_events.len() + p.end_events.len()) + i].id == p.tasks[i].id && import_plan(d)->Ok_0[(1 + p.start_events.len() + p.end_events.len()) + i].bpmn_type
                == "bpmn:task"@ && import_plan(d)->Ok_0[(1 + p.start_events.len() + p.end_events.len()) + i].diagram == diagram_for(d, p.tasks[i].id) && import_plan(d)->Ok_0[(1 + p.start_events.len() + p.end_events.len()) + i].data == ImportDataModel::Task(p.tasks[i]),
        forall|i: int|
            #![trigger p.manual_tasks[i]]
            0 <= i < p.manual_tasks.len() ==> import_plan(d)->Ok_0[(1 + p.start_events.len() + p.end_events.len() + p.tasks.len()) + i].id == p.manual_tasks[i].id && import_plan(d)->Ok_0[(1 + p.start_events.len() + p.end_events.len() + p.tasks.len()) + i].bpmn_type
                == "bpmn:manualTask"@ && import_plan(d)->Ok_0[(1 + p.start_events.len() + p.end_events.len() + p.tasks.len()) + i].diagram == diagram_for(d, p.manual_tasks[i].id) && import_plan(d)->Ok_0[(1 + p.start_events.len() + p.end_events.len() + p.tasks.len()) + i].data == ImportDataModel::ManualTask(p.manual_tasks[i]),
        forall|i: int|
            #![trigger p.user_tasks[i]]
            0 <= i < p.user_tasks.len() ==> import_plan(d)->Ok_0[(1 + p.start_events.len() + p.end_events.len() + p.tasks.len() + p.manual_tasks.len()) + i].id == p.user_tasks[i].id && import_plan(d)->Ok_0[(1 + p.start_events.len() + p.end_events.len() + p.tasks.len() + p.manual_tasks.len()) + i].bpmn_type
                == "bpmn:userTask"@ && import_plan(d)->Ok_0[(1 + p.start_events.len() + p.end_events.len() + p.tasks.len() + p.manual_tasks.len()) + i].diagram == diagram_for(d, p.user_tasks[i].id) && import_plan(d)->Ok_0[(1 + p.start_events.len() + p.end_events.len() + p.tasks.len() + p.manual_tasks.len()) + i].data == ImportDataModel::UserTask(p.user_tasks[i]),
        forall|i: int|
            #![trigger p.service_tasks[i]]
            0 <= i < p.service_tasks.len() ==> import_plan(d)->Ok_0[(1 + p.start_events.len() + p.end_events.len() + p.tasks.len() + p.manual_tasks.len() + p.user_tasks.len()) + i].id == p.service_tasks[i].id && import_plan(d)->Ok_0[(1 + p.start_events.len() + p.end_events.len() + p.tasks.len() + p.manual_tasks.len() + p.user_tasks.len()) + i].bpmn_type
                == "bpmn:serviceTask"@ && import_plan(d)->Ok_0[(1 + p.start_events.len() + p.end_events.len() + p.tasks.len() + p.manual_tasks.len() + p.user_tasks.len()) + i].diagram == diagram_for(d, p.service_tasks[i].id) && import_plan(d)->Ok_0[(1 + p.start_events.len() + p.end_events.len() + p.tasks.len() + p.manual_tasks.len() + p.user_tasks.len()) + i].data == ImportDataModel::ServiceTask(p.service_tasks[i]),
        forall|i: int|
            #![trigger p.script_tasks[i]]
            0 <= i < p.script_tasks.len() ==> import_plan(d)->Ok_0[(1 + p.start_events.len() + p.end_events.len() + p.tasks.len() + p.manual_tasks.len() + p.user_tasks.len() + p.service_tasks.len()) + i].id == p.script_tasks[i].id && import_plan(d)->Ok_0[(1 + p.start_events.len() + p.end_events.len() + p.tasks.len() + p.manual_tasks.len() + p.user_tasks.len() + p.service_tasks.len()) + i].bpmn_type
                == "bpmn:scriptTask"@ && import_plan(d)->Ok_0[(1 + p.start_events.len() + p.end_events.len() + p.tasks.len() + p.manual_tasks.len() + p.user_tasks.len() + p.service_tasks.len()) + i].diagram == diagram_for(d, p.script_tasks[i].id) && import_plan(d)->Ok_0[(1 + p.start_events.len() + p.end_events.len() + p.tasks.len() + p.manual_tasks.len() + p.user_tasks.len() + p.service_tasks.len()) + i].data == ImportDataModel::ScriptTask(p.script_tasks[i]),
        forall|i: int|
            #![trigger p.exclusive_gateways[i]]
            0 <= i < p.exclusive_gateways.len() ==> import_plan(d)->Ok_0[(1 + p.start_events.len() + p.end_events.len() + p.tasks.len() + p.manual_tasks.len() + p.user_tasks.len() + p.service_tasks.len() + p.script_tasks.len()) + i].id == p.exclusive_gateways[i].id && import_plan(d)->Ok_0[(1 + p.start_events.len() + p.end_events.len() + p.tasks.len() + p.manual_tasks.len() + p.user_tasks.len() + p.service_tasks.len() + p.script_tasks.len()) + i].bpmn_type
                == "bpmn:exclusiveGateway"@ && import_plan(d)->Ok_0[(1 + p.start_events.len() + p.end_events.len() + p.tasks.len() + p.manual_tasks.len() + p.user_tasks.len() + p.service_tasks.len() + p.script_tasks.len()) + i].diagram == diagram_for(d, p.exclusive_gateways[i].id) && import_plan(d)->Ok_0[(1 + p.start_events.len() + p.end_events.len() + p.tasks.len() + p.manual_tasks.len() + p.user_tasks.len() + p.service_tasks.len() + p.script_tasks.len()) + i].data == ImportDataModel::ExclusiveGateway(p.exclusive_gateways[i]),
        forall|i: int|
            #![trigger p.parallel_gateways[i]]
            0 <= i < p.parallel_gateways.len() ==> import_plan(d)->Ok_0[(1 + p.start_events.len() + p.end_events.len() + p.tasks.len() + p.manual_tasks.len() + p.user_tasks.len() + p.service_tasks.len() + p.script_tasks.len() + p.exclusive_gateways.len()) + i].id == p.parallel_gateways[i].id && import_plan(d)->Ok_0[(1 + p.start_events.len() + p.end_events.len() + p.tasks.len() + p.manual_tasks.len() + p.user_tasks.len() + p.service_tasks.len() + p.script_tasks.len() + p.exclusive_gateways.len()) + i].bpmn_type
                == "bpmn:parallelGateway"@ && import_plan(d)->Ok_0[(1 + p.start_events.len() + p.end_events.len() + p.tasks.len() + p.manual_tasks.len() + p.user_tasks.len() + p.service_tasks.len() + p.script_tasks.len() + p.exclusive_gateways.len()) + i].diagram == diagram_for(d, p.parallel_gateways[i].id) && import_plan(d)->Ok_0[(1 + p.start_events.len() + p.end_events.len() + p.tasks.len() + p.manual_tasks.len() + p.user_tasks.len() + p.service_tasks.len() + p.script_tasks.len() + p.exclusive_gateways.len()) + i].data == ImportDataModel::ParallelGateway(p.parallel_gateways[i]),
        forall|i: int|
            #![trigger p.sequence_flows[i]]
            0 <= i < p.sequence_flows.len() ==> import_plan(d)->Ok_0[(1 + p.start_events.len() + p.end_events.len() + p.tasks.len() + p.manual_tasks.len() + p.user_tasks.len() + p.service_tasks.len() + p.script_tasks.len() + p.exclusive_gateways.len() + p.parallel_gateways.len()) + i].id == p.sequence_flows[i].id && import_plan(d)->Ok_0[(1 + p.start_events.len() + p.end_events.len() + p.tasks.len() + p.manual_tasks.len() + p.user_tasks.len() + p.service_tasks.len() + p.script_tasks.len() + p.exclusive_gateways.len() + p.parallel_gateways.len()) + i].bpmn_type
                == "bpmn:sequenceFlow"@ && import_plan(d)->Ok_0[(1 + p.start_events.len() + p.end_events.len() + p.tasks.len() + p.manual_tasks.len() + p.user_tasks.len() + p.service_tasks.len() + p.script_tasks.len() + p.exclusive_gateways.len() + p.parallel_gateways.len()) + i].diagram == diagram_for(d, p.sequence_flows[i].id) && import_plan(d)->Ok_0[(1 + p.start_events.len() + p.end_events.len() + p.tasks.len() + p.manual_tasks.len() + p.user_tasks.len() + p.service_tasks.len() + p.script_tasks.len() + p.exclusive_gateways.len() + p.parallel_gateways.len()) + i].data == ImportDataModel::SequenceFlow(normalize_flow(p.sequence_flows[i])),
{
    assert forall|i: int|
        #![trigger p.start_events[i]]
        0 <= i < p.start_events.len() implies import_plan(d)->Ok_0[(1) + i].id == p.start_events[i].id && import_plan(d)->Ok_0[(1) + i].bpmn_type
            == "bpmn:startEvent"@ && import_plan(d)->Ok_0[(1) + i].diagram == diagram_for(d, p.start_events[i].id) && import_plan(d)->Ok_0[(1) + i].data == ImportDataModel::StartEvent(p.start_events[i]) by {
        assert(import_plan(d)->Ok_0[(1) + i] == element_entry(
            d,
            <StartEvent as ImportElement>::id_of(p.start_events[i]),
            <StartEvent as ImportElement>::type_of(),
            <StartEvent as ImportElement>::data_of(p.start_events[i]),
        ));
    }
    assert forall|i: int|
        #![trigger p.end_events[i]]
        0 <= i < p.end_events.len() implies import_plan(d)->Ok_0[(1 + p.start_events.len()) + i].id == p.end_events[i].id && import_plan(d)->Ok_0[(1 + p.start_events.len()) + i].bpmn_type
            == "bpmn:endEvent"@ && import_plan(d)->Ok_0[(1 + p.start_events.len()) + i].diagram == diagram_for(d, p.end_events[i].id) && import_plan(d)->Ok_0[(1 + p.start_events.len()) + i].data == ImportDataModel::EndEvent(p.end_events[i]) by {
        assert(import_plan(d)->Ok_0[(1 + p.start_events.len()) + i] == element_entry(
            d,
            <EndEvent as ImportElement>::id_of(p.end_events[i]),
            <EndEvent as ImportElement>::type_of(),
            <EndEvent as ImportElement>::data_of(p.end_events[i]),
        ));
    }
    assert forall|i: int|
        #![trigger p.tasks[i]]
        0 <= i < p.tasks.len() implies import_plan(d)->Ok_0[(1 + p.start_events.len() + p.end_events.len()) + i].id == p.tasks[i].id && import_plan(d)->Ok_0[(1 + p.start_events.len() + p.end_events.len()) + i].bpmn_type
            == "bpmn:task"@ && import_plan(d)->Ok_0[(1 + p.start_events.len() + p.end_events.len()) + i].diagram == diagram_for(d, p.tasks[i].id) && import_plan(d)->Ok_0[(1 + p.start_events.len() + p.end_events.len()) + i].data == ImportDataModel::Task(p.tasks[i]) by {
        assert(import_plan(d)->Ok_0[(1 + p.start_events.len() + p.end_events.len()) + i] == element_entry(
            d,
            <Task as ImportElement>::id_of(p.tasks[i]),
            <Task as ImportElement>::type_of(),
            <Task as ImportElement>::data_of(p.tasks[i]),
        ));
    }
    assert forall|i: int|
        #![trigger p.manual_tasks[i]]
        0 <= i < p.manual_tasks.len() implies import_plan(d)->Ok_0[(1 + p.start_events.len() + p.end_events.len() + p.tasks.len()) + i].id == p.manual_tasks[i].id && import_plan(d)->Ok_0[(1 + p.start_events.len() + p.end_events.len() + p.tasks.len()) + i].bpmn_type
            == "bpmn:manualTask"@ && import_plan(d)->Ok_0[(1 + p.start_events.len() + p.end_events.len() + p.tasks.len()) + i].diagram == diagram_for(d, p.manual_tasks[i].id) && import_plan(d)->Ok_0[(1 + p.start_events.len() + p.end_events.len() + p.tasks.len()) + i].data == ImportDataModel::ManualTask(p.manual_tasks[i]) by {
        assert(import_plan(d)->Ok_0[(1 + p.start_events.len() + p.end_events.len() + p.tasks.len()) + i] == element_entry(
            d,
            <ManualTask as ImportElement>::id_of(p.manual_tasks[i]),
            <ManualTask as ImportElement>::type_of(),
            <ManualTask as ImportElement>::data_of(p.manual_tasks[i]),
        ));
    }
    assert forall|i: int|
        #![trigger p.user_tasks[i]]
        0 <= i < p.user_tasks.len() implies import_plan(d)->Ok_0[(1 + p.start_events.len() + p.end_events.len() + p.tasks.len() + p.manual_tasks.len()) + i].id == p.user_tasks[i].id && import_plan(d)->Ok_0[(1 + p.start_events.len() + p.end_events.len() + p.tasks.len() + p.manual_tasks.len()) + i].bpmn_type
            == "bpmn:userTask"@ && import_plan(d)->Ok_0[(1 + p.start_events.len() + p.end_events.len() + p.tasks.len() + p.manual_tasks.len()) + i].diagram == diagram_for(d, p.user_tasks[i].id) && import_plan(d)->Ok_0[(1 + p.start_events.len() + p.end_events.len() + p.tasks.len() + p.manual_tasks.len()) + i].data == ImportDataModel::UserTask(p.user_tasks[i]) by {
        assert(import_plan(d)->Ok_0[(1 + p.start_events.len() + p.end_events.len() + p.tasks.len() + p.manual_tasks.len()) + i] == element_entry(
            d,
            <UserTask as ImportElement>::id_of(p.user_tasks[i]),
            <UserTask as ImportElement>::type_of(),
            <UserTask as ImportElement>::data_of(p.user_tasks[i]),
        ));
    }
    assert forall|i: int|
        #![trigger p.service_tasks[i]]
        0 <= i < p.service_tasks.len() implies import_plan(d)->Ok_0[(1 + p.start_events.len() + p.end_events.len() + p.tasks.len() + p.manual_tasks.len() + p.user_tasks.len()) + i].id == p.service_tasks[i].id && import_plan(d)->Ok_0[(1 + p.start_events.len() + p.end_events.len() + p.tasks.len() + p.manual_tasks.len() + p.user_tasks.len()) + i].bpmn_type
            == "bpmn:serviceTask"@ && import_plan(d)->Ok_0[(1 + p.start_events.len() + p.end_events.len() + p.tasks.len() + p.manual_tasks.len() + p.user_tasks.len()) + i].diagram == diagram_for(d, p.service_tasks[i].id) && import_plan(d)->Ok_0[(1 + p.start_events.len() + p.end_events.len() + p.tasks.len() + p.manual_tasks.len() + p.user_tasks.len()) + i].data == ImportDataModel::ServiceTask(p.service_tasks[i]) by {
        assert(import_plan(d)->Ok_0[(1 + p.start_events.len() + p.end_events.len() + p.tasks.len() + p.manual_tasks.len() + p.user_tasks.len()) + i] == element_entry(
            d,
            <ServiceTask as ImportElement>::id_of(p.service_tasks[i]),
            <ServiceTask as ImportElement>::type_of(),
            <ServiceTask as ImportElement>::data_of(p.service_tasks[i]),
        ));
    }
    assert forall|i: int|
        #![trigger p.script_tasks[i]]
        0 <= i < p.script_tasks.len() implies import_plan(d)->Ok_0[(1 + p.start_events.len() + p.end_events.len() + p.tasks.len() + p.manual_tasks.len() + p.user_tasks.len() + p.service_tasks.len()) + i].id == p.script_tasks[i].id && import_plan(d)->Ok_0[(1 + p.start_events.len() + p.end_events.len() + p.tasks.len() + p.manual_tasks.len() + p.user_tasks.len() + p.service_tasks.len()) + i].bpmn_type
            == "bpmn:scriptTask"@ && import_plan(d)->Ok_0[(1 + p.start_events.len() + p.end_events.len() + p.tasks.len() + p.manual_tasks.len() + p.user_tasks.len() + p.service_tasks.len()) + i].diagram == diagram_for(d, p.script_tasks[i].id) && import_plan(d)->Ok_0[(1 + p.start_events.len() + p.end_events.len() + p.tasks.len() + p.manual_tasks.len() + p.user_tasks.len() + p.service_tasks.len()) + i].data == ImportDataModel::ScriptTask(p.script_tasks[i]) by {
        assert(import_plan(d)->Ok_0[(1 + p.start_events.len() + p.end_events.len() + p.tasks.len() + p.manual_tasks.len() + p.user_tasks.len() + p.service_tasks.len()) + i] == element_entry(
            d,
            <ScriptTask as ImportElement>::id_of(p.script_tasks[i]),
            <ScriptTask as ImportElement>::type_of(),
            <ScriptTask as ImportElement>::data_of(p.script_tasks[i]),
        ));
    }
    assert forall|i: int|
        #![trigger p.exclusive_gateways[i]]
        0 <= i < p.exclusive_gateways.len() implies import_plan(d)->Ok_0[(1 + p.start_events.len() + p.end_events.len() + p.tasks.len() + p.manual_tasks.len() + p.user_tasks.len() + p.service_tasks.len() + p.script_tasks.len()) + i].id == p.exclusive_gateways[i].id && import_plan(d)->Ok_0[(1 + p.start_events.len() + p.end_events.len() + p.tasks.len() + p.manual_tasks.len() + p.user_tasks.len() + p.service_tasks.len() + p.script_tasks.len()) + i].bpmn_type
            == "bpmn:exclusiveGateway"@ && import_plan(d)->Ok_0[(1 + p.start_events.len() + p.end_events.len() + p.tasks.len() + p.manual_tasks.len() + p.user_tasks.len() + p.service_tasks.len() + p.script_tasks.len()) + i].diagram == diagram_for(d, p.exclusive_gateways[i].id) && import_plan(d)->Ok_0[(1 + p.start_events.len() + p.end_events.len() + p.tasks.len() + p.manual_tasks.len() + p.user_tasks.len() + p.service_tasks.len() + p.script_tasks.len()) + i].data == ImportDataModel::ExclusiveGateway(p.exclusive_gateways[i]) by {
        assert(import_plan(d)->Ok_0[(1 + p.start_events.len() + p.end_events.len() + p.tasks.len() + p.manual_tasks.len() + p.user_tasks.len() + p.service_tasks.len() + p.script_tasks.len()) + i] == element_entry(
            d,
            <ExclusiveGateway as ImportElement>::id_of(p.exclusive_gateways[i]),
            <ExclusiveGateway as ImportElement>::type_of(),
            <ExclusiveGateway as ImportElement>::data_of(p.exclusive_gateways[i]),
        ));
    }
    assert forall|i: int|
        #![trigger p.parallel_gateways[i]]
        0 <= i < p.parallel_gateways.len() implies import_plan(d)->Ok_0[(1 + p.start_events.len() + p.end_events.len() + p.tasks.len() + p.manual_tasks.len() + p.user_tasks.len() + p.service_tasks.len() + p.script_tasks.len() + p.exclusive_gateways.len()) + i].id == p.parallel_gateways[i].id && import_plan(d)->Ok_0[(1 + p.start_events.len() + p.end_events.len() + p.tasks.len() + p.manual_tasks.len() + p.user_tasks.len() + p.service_tasks.len() + p.script_tasks.len() + p.exclusive_gateways.len()) + i].bpmn_type
            == "bpmn:parallelGateway"@ && import_plan(d)->Ok_0[(1 + p.start_events.len() + p.end_events.len() + p.tasks.len() + p.manual_tasks.len() + p.user_tasks.len() + p.service_tasks.len() + p.script_tasks.len() + p.exclusive_gateways.len()) + i].diagram == diagram_for(d, p.parallel_gateways[i].id) && import_plan(d)->Ok_0[(1 + p.start_events.len() + p.end_events.len() + p.tasks.len() + p.manual_tasks.len() + p.user_tasks.len() + p.service_tasks.len() + p.script_tasks.len() + p.exclusive_gateways.len()) + i].data == ImportDataModel::ParallelGateway(p.parallel_gateways[i]) by {
        assert(import_plan(d)->Ok_0[(1 + p.start_events.len() + p.end_events.len() + p.tasks.len() + p.manual_tasks.len() + p.user_tasks.len() + p.service_tasks.len() + p.script_tasks.len() + p.exclusive_gateways.len()) + i] == element_entry(
            d,
            <ParallelGateway as ImportElement>::id_of(p.parallel_gateways[i]),
            <ParallelGateway as ImportElement>::type_of(),
            <ParallelGateway as ImportElement>::data_of(p.parallel_gateways[i]),
        ));
    }
    assert forall|i: int|
        #![trigger p.sequence_flows[i]]
        0 <= i < p.sequence_flows.len() implies import_plan(d)->Ok_0[(1 + p.start_events.len() + p.end_events.len() + p.tasks.len() + p.manual_tasks.len() + p.user_tasks.len() + p.service_tasks.len() + p.script_tasks.len() + p.exclusive_gateways.len() + p.parallel_gateways.len()) + i].id == p.sequence_flows[i].id && import_plan(d)->Ok_0[(1 + p.start_events.len() + p.end_events.len() + p.tasks.len() + p.manual_tasks.len() + p.user_tasks.len() + p.service_tasks.len() + p.script_tasks.len() + p.exclusive_gateways.len() + p.parallel_gateways.len()) + i].bpmn_type
            == "bpmn:sequenceFlow"@ && import_plan(d)->Ok_0[(1 + p.start_events.len() + p.end_events.len() + p.tasks.len() + p.manual_tasks.len() + p.user_tasks.len() + p.service_tasks.len() + p.script_tasks.len() + p.exclusive_gateways.len() + p.parallel_gateways.len()) + i].diagram == diagram_for(d, p.sequence_flows[i].id) && import_plan(d)->Ok_0[(1 + p.start_events.len() + p.end_events.len() + p.tasks.len() + p.manual_tasks.len() + p.user_tasks.len() + p.service_tasks.len() + p.script_tasks.len() + p.exclusive_gateways.len() + p.parallel_gateways.len()) + i].data == ImportDataModel::SequenceFlow(normalize_flow(p.sequence_flows[i])) by {
        assert(import_plan(d)->Ok_0[(1 + p.start_events.len() + p.end_events.len() + p.tasks.len() + p.manual_tasks.len() + p.user_tasks.len() + p.service_tasks.len() + p.script_tasks.len() + p.exclusive_gateways.len() + p.parallel_gateways.len()) + i] == element_entry(
            d,
            <SequenceFlow as ImportElement>::id_of(p.sequence_flows[i]),
            <SequenceFlow as ImportElement>::type_of(),
            <SequenceFlow as ImportElement>::data_of(p.sequence_flows[i]),
        ));
    }
}

} // verus!
