//! Structural validation rules of the `validate` command, for BPMN
//! documents and for the element a single MDX file declares.

use vstd::prelude::*;
use crate::bpmn::types::{
    Definitions, DefinitionsModel, EndEvent, EndEventModel, Process, ProcessModel, SequenceFlow,
    SequenceFlowModel, StartEvent, StartEventModel, Task, TaskModel,
};

verus! {

/// The outcome of a check: success, or the message of the first failed
/// rule.
pub open spec fn check_outcome(r: Result<(), String>) -> Result<(), Seq<char>> {
    match r {
        Ok(()) => Ok(()),
        Err(m) => Err(m@),
    }
}

/// A process must have an id, a start event and an end event (checked in
/// that order).
pub open spec fn process_check(p: ProcessModel) -> Result<(), Seq<char>> {
    if p.id.len() == 0 {
        Err("Process must have an id"@)
    } else if p.start_events.len() == 0 {
        Err("Process must have at least one start event"@)
    } else if p.end_events.len() == 0 {
        Err("Process must have at least one end event"@)
    } else {
        Ok(())
    }
}

/// Validate a BPMN process.
pub fn validate_process(process: &Process) -> (r: Result<(), String>)
    ensures
        check_outcome(r) == process_check(process@),
{
    if process.id.as_str().unicode_len() == 0 {
        return Err(String::from_str("Process must have an id"));
    }
    if process.start_events.len() == 0 {
        return Err(String::from_str("Process must have at least one start event"));
    }
    if process.end_events.len() == 0 {
        return Err(String::from_str("Process must have at least one end event"));
    }
    Ok(())
}

/// A start event must have an id.
pub open spec fn start_event_check(e: StartEventModel) -> Result<(), Seq<char>> {
    if e.id.len() == 0 {
        Err("StartEvent must have an id"@)
    } else {
        Ok(())
    }
}

/// Validate a start event.
pub fn validate_start_event(event: &StartEvent) -> (r: Result<(), String>)
    ensures
        check_outcome(r) == start_event_check(event@),
{
    if event.id.as_str().unicode_len() == 0 {
        return Err(String::from_str("StartEvent must have an id"));
    }
    Ok(())
}

/// An end event must have an id.
pub open spec fn end_event_check(e: EndEventModel) -> Result<(), Seq<char>> {
    if e.id.len() == 0 {
        Err("EndEvent must have an id"@)
    } else {
        Ok(())
    }
}

/// Validate an end event.
pub fn validate_end_event(event: &EndEvent) -> (r: Result<(), String>)
    ensures
        check_outcome(r) == end_event_check(event@),
{
    if event.id.as_str().unicode_len() == 0 {
        return Err(String::from_str("EndEvent must have an id"));
    }
    Ok(())
}

/// A task must have an id.
pub open spec fn task_check(t: TaskModel) -> Result<(), Seq<char>> {
    if t.id.len() == 0 {
        Err("Task must have an id"@)
    } else {
        Ok(())
    }
}

/// Validate a task.
pub fn validate_task(task: &Task) -> (r: Result<(), String>)
    ensures
        check_outcome(r) == task_check(task@),
{
    if task.id.as_str().unicode_len() == 0 {
        return Err(String::from_str("Task must have an id"));
    }
    Ok(())
}

/// A sequence flow must have an id, a source and a target (checked in that
/// order).
pub open spec fn sequence_flow_check(f: SequenceFlowModel) -> Result<(), Seq<char>> {
    if f.id.len() == 0 {
        Err("SequenceFlow must have an id"@)
    } else if f.source_ref.len() == 0 {
        Err("SequenceFlow must have a sourceRef"@)
    } else if f.target_ref.len() == 0 {
        Err("SequenceFlow must have a targetRef"@)
    } else {
        Ok(())
    }
}

/// Validate a sequence flow.
pub fn validate_sequence_flow(flow: &SequenceFlow) -> (r: Result<(), String>)
    ensures
        check_outcome(r) == sequence_flow_check(flow@),
{
    if flow.id.as_str().unicode_len() == 0 {
        return Err(String::from_str("SequenceFlow must have an id"));
    }
    if flow.source_ref.as_str().unicode_len() == 0 {
        return Err(String::from_str("SequenceFlow must have a sourceRef"));
    }
    if flow.target_ref.as_str().unicode_len() == 0 {
        return Err(String::from_str("SequenceFlow must have a targetRef"));
    }
    Ok(())
}

/// The frontmatter of a process file must give the process an id.
pub open spec fn process_frontmatter_check(p: ProcessModel) -> Result<(), Seq<char>> {
    if p.id.len() == 0 {
        Err("Process must have an id"@)
    } else {
        Ok(())
    }
}

/// Validate the frontmatter of a process file.
pub fn validate_process_frontmatter(process: &Process) -> (r: Result<(), String>)
    ensures
        check_outcome(r) == process_frontmatter_check(process@),
{
    if process.id.as_str().unicode_len() == 0 {
        return Err(String::from_str("Process must have an id"));
    }
    Ok(())
}

/// A BPMN document must have an id, and its process, if any, must pass
/// [`process_check`].
pub open spec fn definitions_check(d: DefinitionsModel) -> Result<(), Seq<char>> {
    if d.id.len() == 0 {
        Err("BPMN definitions must have an id"@)
    } else {
        match d.process {
            Some(p) => process_check(p),
            None => Ok(()),
        }
    }
}

/// The semantic checks of a parsed BPMN document.
pub fn validate_definitions(definitions: &Definitions) -> (r: Result<(), String>)
    ensures
        check_outcome(r) == definitions_check(definitions@),
{
    if definitions.id.as_str().unicode_len() == 0 {
        return Err(String::from_str("BPMN definitions must have an id"));
    }
    match &definitions.process {
        Some(p) => validate_process(p),
        None => Ok(()),
    }
}

/// The element an MDX file's frontmatter is read as: the first of process,
/// start event, end event, task and sequence flow that its YAML decodes to,
/// checked by the matching rule; none of them is an error.
pub open spec fn mdx_check(
    process: Option<ProcessModel>,
    start: Option<StartEventModel>,
    end: Option<EndEventModel>,
    task: Option<TaskModel>,
    flow: Option<SequenceFlowModel>,
) -> Result<(), Seq<char>> {
    match process {
        Some(p) => process_frontmatter_check(p),
        None => match start {
            Some(e) => start_event_check(e),
            None => match end {
                Some(e) => end_event_check(e),
                None => match task {
                    Some(t) => task_check(t),
                    None => match flow {
                        Some(f) => sequence_flow_check(f),
                        None => Err("Could not parse frontmatter as a valid BPMN type"@),
                    },
                },
            },
        },
    }
}

/// Validate the frontmatter of an MDX file, given what its YAML decodes to
/// as each candidate element type (`None` where it does not decode).
pub fn validate_mdx(
    process: &Option<Process>,
    start: &Option<StartEvent>,
    end: &Option<EndEvent>,
    task: &Option<Task>,
    flow: &Option<SequenceFlow>,
) -> (r: Result<(), String>)
    ensures
        check_outcome(r) == mdx_check(
            process.deep_view(),
            start.deep_view(),
            end.deep_view(),
            task.deep_view(),
            flow.deep_view(),
        ),
{
    if let Some(p) = process {
        return validate_process_frontmatter(p);
    }
    if let Some(e) = start {
        return validate_start_event(e);
    }
    if let Some(e) = end {
        return validate_end_event(e);
    }
    if let Some(t) = task {
        return validate_task(t);
    }
    if let Some(f) = flow {
        return validate_sequence_flow(f);
    }
    Err(String::from_str("Could not parse frontmatter as a valid BPMN type"))
}

/// How a file is validated, by its extension.
#[derive(Clone, Copy, Debug, PartialEq, Eq, Structural)]
pub enum FileKind {
    /// A BPMN XML document (`.bpmn`, `.bpmn2`).
    Bpmn,
    /// An MDX file (`.mdx`).
    Mdx,
}

/// The kind of a file by extension, or the unknown-type message.
pub open spec fn file_kind(extension: Seq<char>) -> Result<FileKind, Seq<char>> {
    if extension == "bpmn"@ || extension == "bpmn2"@ {
        Ok(FileKind::Bpmn)
    } else if extension == "mdx"@ {
        Ok(FileKind::Mdx)
    } else {
        Err("Unknown file type: ."@ + extension)
    }
}

/// Which validation a file gets, from its extension (empty when it has
/// none).
pub fn validate_file(extension: &str) -> (r: Result<FileKind, String>)
    ensures
        match file_kind(extension@) {
            Ok(k) => r == Ok::<FileKind, String>(k),
            Err(m) => r matches Err(m2) && m2@ == m,
        },
{
    let e = String::from_str(extension);
    if e.eq(&String::from_str("bpmn")) || e.eq(&String::from_str("bpmn2")) {
        Ok(FileKind::Bpmn)
    } else if e.eq(&String::from_str("mdx")) {
        Ok(FileKind::Mdx)
    } else {
        let mut m = String::from_str("Unknown file type: .");
        m.append(extension);
        Err(m)
    }
}

} // verus!
