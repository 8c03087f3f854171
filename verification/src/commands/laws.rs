//! Properties that tie the `import` command's files to compilation.

use vstd::prelude::*;
use crate::bpmn::types::{DefinitionsModel, ProcessModel};
use crate::commands::import::{
    command_clean_yaml, element_mdx_content, element_type_name, import_items_of, item_of,
};
use crate::compiler::compile::{frame, kind_of_type, ElementModel, MdxInputModel};
use crate::compiler::laws::{is_plain_word, law_imported_file_frames, no_closing_in};

verus! {

/// The type name the `import` command writes for an element names that
/// element's kind again when compilation reads it.
proof fn lemma_type_name_kind(e: ElementModel)
    ensures
        is_plain_word(element_type_name(e)),
        kind_of_type(element_type_name(e)) == Some(e.kind()),
{
    reveal_strlit("bpmn:startEvent");
    reveal_strlit("bpmn:endEvent");
    reveal_strlit("bpmn:task");
    reveal_strlit("bpmn:serviceTask");
    reveal_strlit("bpmn:scriptTask");
    reveal_strlit("bpmn:exclusiveGateway");
    reveal_strlit("bpmn:parallelGateway");
    reveal_strlit("bpmn:sequenceFlow");
    let t = element_type_name(e);
    assert(t.len() > 0);
    assert(t[0] == 'b');
    assert(t.last() != ' ');
}

/// A file the `import` command writes for an element is read back by
/// compilation as that element's kind, whenever the element's cleaned YAML
/// ends with a line break and holds no line starting with `---`.
pub proof fn law_command_import_frames(filename: Seq<char>, e: ElementModel, yaml: Seq<char>)
    requires
        command_clean_yaml(yaml).len() > 0,
        command_clean_yaml(yaml).last() == '\n',
        no_closing_in(seq!['\n'] + command_clean_yaml(yaml).drop_last()),
    ensures
        frame(
            MdxInputModel { filename, content: element_mdx_content(element_type_name(e), yaml) },
        ) matches Ok((k, _)) && k == e.kind(),
{
    let c = command_clean_yaml(yaml);
    let y = c.drop_last();
    assert(y + seq!['\n'] =~= c);
    lemma_type_name_kind(e);
    law_imported_file_frames(filename, element_type_name(e), y);
}

/// The `import` command writes one file per flow element of every kind,
/// each naming the element's own BPMN type: the start events, end events,
/// tasks, service tasks, script tasks, exclusive gateways, parallel
/// gateways and sequence flows, each in document order; the `i`-th element
/// of a list is written under its own id with the BPMN tag of its list.
pub proof fn law_import_items_per_element(d: DefinitionsModel, p: ProcessModel)
    requires
        d.process == Some(p),
    ensures
        import_items_of(d) is Some,
        import_items_of(d)->Some_0.len() == p.start_events.len() + p.end_events.len() + p.tasks.len() + p.service_tasks.len() + p.script_tasks.len() + p.exclusive_gateways.len() + p.parallel_gateways.len() + p.sequence_flows.len(),
        forall|i: int|
            #![trigger p.start_events[i]]
            0 <= i < p.start_events.len() ==> import_items_of(d)->Some_0[(0) + i].id == p.start_events[i].id && import_items_of(d)->Some_0[(0) + i].bpmn_type
                == "bpmn:startEvent"@ && import_items_of(d)->Some_0[(0) + i].element == ElementModel::StartEvent(p.start_events[i]),
        forall|i: int|
            #![trigger p.end_events[i]]
            0 <= i < p.end_events.len() ==> import_items_of(d)->Some_0[(p.start_events.len()) + i].id == p.end_events[i].id && import_items_of(d)->Some_0[(p.start_events.len()) + i].bpmn_type
                == "bpmn:endEvent"@ && import_items_of(d)->Some_0[(p.start_events.len()) + i].element == ElementModel::EndEvent(p.end_events[i]),
        forall|i: int|
            #![trigger p.tasks[i]]
            0 <= i < p.tasks.len() ==> import_items_of(d)->Some_0[(p.start_events.len() + p.end_events.len()) + i].id == p.tasks[i].id && import_items_of(d)->Some_0[(p.start_events.len() + p.end_events.len()) + i].bpmn_type
                == "bpmn:task"@ && import_items_of(d)->Some_0[(p.start_events.len() + p.end_events.len()) + i].element == ElementModel::Task(p.tasks[i]),
        forall|i: int|
            #![trigger p.service_tasks[i]]
            0 <= i < p.service_tasks.len() ==> import_items_of(d)->Some_0[(p.start_events.len() + p.end_events.len() + p.tasks.len()) + i].id == p.service_tasks[i].id && import_items_of(d)->Some_0[(p.start_events.len() + p.end_events.len() + p.tasks.len()) + i].bpmn_type
                == "bpmn:serviceTask"@ && import_items_of(d)->Some_0[(p.start_events.len() + p.end_events.len() + p.tasks.len()) + i].element == ElementModel::ServiceTask(p.service_tasks[i]),
        forall|i: int|
            #![trigger p.script_tasks[i]]
            0 <= i < p.script_tasks.len() ==> import_items_of(d)->Some_0[(p.start_events.len() + p.end_events.len() + p.tasks.len() + p.service_tasks.len()) + i].id == p.script_tasks[i].id && import_items_of(d)->Some_0[(p.start_events.len() + p.end_events.len() + p.tasks.len() + p.service_tasks.len()) + i].bpmn_type
                == "bpmn:scriptTask"@ && import_items_of(d)->Some_0[(p.start_events.len() + p.end_events.len() + p.tasks.len() + p.service_tasks.len()) + i].element == ElementModel::ScriptTask(p.script_tasks[i]),
        forall|i: int|
            #![trigger p.exclusive_gateways[i]]
            0 <= i < p.exclusive_gateways.len() ==> import_items_of(d)->Some_0[(p.start_events.len() + p.end_events.len() + p.tasks.len() + p.service_tasks.len() + p.script_tasks.len()) + i].id == p.exclusive_gateways[i].id && import_items_of(d)->Some_0[(p.start_events.len() + p.end_events.len() + p.tasks.len() + p.service_tasks.len() + p.script_tasks.len()) + i].bpmn_type
                == "bpmn:exclusiveGateway"@ && import_items_of(d)->Some_0[(p.start_events.len() + p.end_events.len() + p.tasks.len() + p.service_tasks.len() + p.script_tasks.len()) + i].element == ElementModel::ExclusiveGateway(p.exclusive_gateways[i]),
        forall|i: int|
            #![trigger p.parallel_gateways[i]]
            0 <= i < p.parallel_gateways.len() ==> import_items_of(d)->Some_0[(p.start_events.len() + p.end_events.len() + p.tasks.len() + p.service_tasks.len() + p.script_tasks.len() + p.exclusive_gateways.len()) + i].id == p.parallel_gateways[i].id && import_items_of(d)->Some_0[(p.start_events.len() + p.end_events.len() + p.tasks.len() + p.service_tasks.len() + p.script_tasks.len() + p.exclusive_gateways.len()) + i].bpmn_type
                == "bpmn:parallelGateway"@ && import_items_of(d)->Some_0[(p.start_events.len() + p.end_events.len() + p.tasks.len() + p.service_tasks.len() + p.script_tasks.len() + p.exclusive_gateways.len()) + i].element == ElementModel::ParallelGateway(p.parallel_gateways[i]),
        forall|i: int|
            #![trigger p.sequence_flows[i]]
            0 <= i < p.sequence_flows.len() ==> import_items_of(d)->Some_0[(p.start_events.len() + p.end_events.len() + p.tasks.len() + p.service_tasks.len() + p.script_tasks.len() + p.exclusive_gateways.len() + p.parallel_gateways.len()) + i].id == p.sequence_flows[i].id && import_items_of(d)->Some_0[(p.start_events.len() + p.end_events.len() + p.tasks.len() + p.service_tasks.len() + p.script_tasks.len() + p.exclusive_gateways.len() + p.parallel_gateways.len()) + i].bpmn_type
                == "bpmn:sequenceFlow"@ && import_items_of(d)->Some_0[(p.start_events.len() + p.end_events.len() + p.tasks.len() + p.service_tasks.len() + p.script_tasks.len() + p.exclusive_gateways.len() + p.parallel_gateways.len()) + i].element == ElementModel::SequenceFlow(p.sequence_flows[i]),
{
    assert forall|i: int|
        #![trigger p.start_events[i]]
        0 <= i < p.start_events.len() implies import_items_of(d)->Some_0[(0) + i].id == p.start_events[i].id && import_items_of(d)->Some_0[(0) + i].bpmn_type
            == "bpmn:startEvent"@ && import_items_of(d)->Some_0[(0) + i].element == ElementModel::StartEvent(p.start_events[i]) by {
        assert(import_items_of(d)->Some_0[(0) + i] == item_of(ElementModel::StartEvent(p.start_events[i])));
    }
    assert forall|i: int|
        #![trigger p.end_events[i]]
        0 <= i < p.end_events.len() implies import_items_of(d)->Some_0[(p.start_events.len()) + i].id == p.end_events[i].id && import_items_of(d)->Some_0[(p.start_events.len()) + i].bpmn_type
            == "bpmn:endEvent"@ && import_items_of(d)->Some_0[(p.start_events.len()) + i].element == ElementModel::EndEvent(p.end_events[i]) by {
        assert(import_items_of(d)->Some_0[(p.start_events.len()) + i] == item_of(ElementModel::EndEvent(p.end_events[i])));
    }
    assert forall|i: int|
        #![trigger p.tasks[i]]
        0 <= i < p.tasks.len() implies import_items_of(d)->Some_0[(p.start_events.len() + p.end_events.len()) + i].id == p.tasks[i].id && import_items_of(d)->Some_0[(p.start_events.len() + p.end_events.len()) + i].bpmn_type
            == "bpmn:task"@ && import_items_of(d)->Some_0[(p.start_events.len() + p.end_events.len()) + i].element == ElementModel::Task(p.tasks[i]) by {
        assert(import_items_of(d)->Some_0[(p.start_events.len() + p.end_events.len()) + i] == item_of(ElementModel::Task(p.tasks[i])));
    }
    assert forall|i: int|
        #![trigger p.service_tasks[i]]
        0 <= i < p.service_tasks.len() implies import_items_of(d)->Some_0[(p.start_events.len() + p.end_events.len() + p.tasks.len()) + i].id == p.service_tasks[i].id && import_items_of(d)->Some_0[(p.start_events.len() + p.end_events.len() + p.tasks.len()) + i].bpmn_type
            == "bpmn:serviceTask"@ && import_items_of(d)->Some_0[(p.start_events.len() + p.end_events.len() + p.tasks.len()) + i].element == ElementModel::ServiceTask(p.service_tasks[i]) by {
        assert(import_items_of(d)->Some_0[(p.start_events.len() + p.end_events.len() + p.tasks.len()) + i] == item_of(ElementModel::ServiceTask(p.service_tasks[i])));
    }
    assert forall|i: int|
        #![trigger p.script_tasks[i]]
        0 <= i < p.script_tasks.len() implies import_items_of(d)->Some_0[(p.start_events.len() + p.end_events.len() + p.tasks.len() + p.service_tasks.len()) + i].id == p.script_tasks[i].id && import_items_of(d)->Some_0[(p.start_events.len() + p.end_events.len() + p.tasks.len() + p.service_tasks.len()) + i].bpmn_type
            == "bpmn:scriptTask"@ && import_items_of(d)->Some_0[(p.start_events.len() + p.end_events.len() + p.tasks.len() + p.service_tasks.len()) + i].element == ElementModel::ScriptTask(p.script_tasks[i]) by {
        assert(import_items_of(d)->Some_0[(p.start_events.len() + p.end_events.len() + p.tasks.len() + p.service_tasks.len()) + i] == item_of(ElementModel::ScriptTask(p.script_tasks[i])));
    }
    assert forall|i: int|
        #![trigger p.exclusive_gateways[i]]
        0 <= i < p.exclusive_gateways.len() implies import_items_of(d)->Some_0[(p.start_events.len() + p.end_events.len() + p.tasks.len() + p.service_tasks.len() + p.script_tasks.len()) + i].id == p.exclusive_gateways[i].id && import_items_of(d)->Some_0[(p.start_events.len() + p.end_events.len() + p.tasks.len() + p.service_tasks.len() + p.script_tasks.len()) + i].bpmn_type
            == "bpmn:exclusiveGateway"@ && import_items_of(d)->Some_0[(p.start_events.len() + p.end_events.len() + p.tasks.len() + p.service_tasks.len() + p.script_tasks.len()) + i].element == ElementModel::ExclusiveGateway(p.exclusive_gateways[i]) by {
        assert(import_items_of(d)->Some_0[(p.start_events.len() + p.end_events.len() + p.tasks.len() + p.service_tasks.len() + p.script_tasks.len()) + i] == item_of(ElementModel::ExclusiveGateway(p.exclusive_gateways[i])));
    }
    assert forall|i: int|
        #![trigger p.parallel_gateways[i]]
        0 <= i < p.parallel_gateways.len() implies import_items_of(d)->Some_0[(p.start_events.len() + p.end_events.len() + p.tasks.len() + p.service_tasks.len() + p.script_tasks.len() + p.exclusive_gateways.len()) + i].id == p.parallel_gateways[i].id && import_items_of(d)->Some_0[(p.start_events.len() + p.end_events.len() + p.tasks.len() + p.service_tasks.len() + p.script_tasks.len() + p.exclusive_gateways.len()) + i].bpmn_type
            == "bpmn:parallelGateway"@ && import_items_of(d)->Some_0[(p.start_events.len() + p.end_events.len() + p.tasks.len() + p.service_tasks.len() + p.script_tasks.len() + p.exclusive_gateways.len()) + i].element == ElementModel::ParallelGateway(p.parallel_gateways[i]) by {
        assert(import_items_of(d)->Some_0[(p.start_events.len() + p.end_events.len() + p.tasks.len() + p.service_tasks.len() + p.script_tasks.len() + p.exclusive_gateways.len()) + i] == item_of(ElementModel::ParallelGateway(p.parallel_gateways[i])));
    }
    assert forall|i: int|
        #![trigger p.sequence_flows[i]]
        0 <= i < p.sequence_flows.len() implies import_items_of(d)->Some_0[(p.start_events.len() + p.end_events.len() + p.tasks.len() + p.service_tasks.len() + p.script_tasks.len() + p.exclusive_gateways.len() + p.parallel_gateways.len()) + i].id == p.sequence_flows[i].id && import_items_of(d)->Some_0[(p.start_events.len() + p.end_events.len() + p.tasks.len() + p.service_tasks.len() + p.script_tasks.len() + p.exclusive_gateways.len() + p.parallel_gateways.len()) + i].bpmn_type
            == "bpmn:sequenceFlow"@ && import_items_of(d)->Some_0[(p.start_events.len() + p.end_events.len() + p.tasks.len() + p.service_tasks.len() + p.script_tasks.len() + p.exclusive_gateways.len() + p.parallel_gateways.len()) + i].element == ElementModel::SequenceFlow(p.sequence_flows[i]) by {
        assert(import_items_of(d)->Some_0[(p.start_events.len() + p.end_events.len() + p.tasks.len() + p.service_tasks.len() + p.script_tasks.len() + p.exclusive_gateways.len() + p.parallel_gateways.len()) + i] == item_of(ElementModel::SequenceFlow(p.sequence_flows[i])));
    }
}

} // verus!
