//! Compile: MDX element files into a BPMN document.
//!
//! Each input is an MDX file whose frontmatter names a BPMN element type
//! (`type: bpmn:startEvent`, ...). The frontmatter is framed and its type
//! checked here; turning the YAML text into an element value is done by a
//! decoder the caller supplies. The elements are collected into a single
//! process, whose graph must pass validation.

use vstd::prelude::*;
use crate::bpmn::types::{
    Definitions, DefinitionsModel, EndEvent, EndEventModel, ExclusiveGateway, ExclusiveGatewayModel,
    ParallelGateway, ParallelGatewayModel, Process, ProcessModel, ScriptTask, ScriptTaskModel,
    SequenceFlow, SequenceFlowModel, ServiceTask, ServiceTaskModel, StartEvent, StartEventModel, Task,
    TaskModel,
};
use crate::compiler::mdx::{extract_type, frontmatter_type, split_mdx, MdxError, MdxFile};
use crate::domain::process_graph::{validation_errors, Graph};
use crate::graph_validation::{domain_process, to_domain_process};
use crate::text::{concat3, copy_string, join_lines, Duplicate};

verus! {

/// A single MDX file to compile.
pub struct MdxInput {
    /// File name (e.g. "start_1.mdx").
    pub filename: String,
    /// Full MDX content, frontmatter included.
    pub content: String,
}

/// Abstract value of an [`MdxInput`].
pub struct MdxInputModel {
    pub filename: Seq<char>,
    pub content: Seq<char>,
}

impl View for MdxInput {
    type V = MdxInputModel;

    open spec fn view(&self) -> MdxInputModel {
        MdxInputModel { filename: self.filename@, content: self.content@ }
    }
}

impl DeepView for MdxInput {
    type V = MdxInputModel;

    open spec fn deep_view(&self) -> MdxInputModel {
        self@
    }
}

/// Why compilation failed.
pub enum CompileError {
    /// No MDX inputs were given.
    EmptyInputs,
    /// An MDX file could not be split into frontmatter and body.
    ParseError { filename: String, message: String },
    /// The frontmatter has no `type` field.
    MissingType { filename: String },
    /// The `type` field names no supported BPMN element.
    UnknownType { filename: String, bpmn_type: String },
    /// The frontmatter could not be turned into the element it names.
    DeserializationError { filename: String, message: String },
    /// The assembled process fails graph validation.
    InvalidGraph(Vec<String>),
}

/// Abstract value of a [`CompileError`].
pub enum CompileErrorModel {
    EmptyInputs,
    ParseError { filename: Seq<char>, message: Seq<char> },
    MissingType { filename: Seq<char> },
    UnknownType { filename: Seq<char>, bpmn_type: Seq<char> },
    DeserializationError { filename: Seq<char>, message: Seq<char> },
    InvalidGraph(Seq<Seq<char>>),
}

impl View for CompileError {
    type V = CompileErrorModel;

    open spec fn view(&self) -> CompileErrorModel {
        match self {
            CompileError::EmptyInputs => CompileErrorModel::EmptyInputs,
            CompileError::ParseError { filename, message } => CompileErrorModel::ParseError {
                filename: filename@,
                message: message@,
            },
            CompileError::MissingType { filename } => CompileErrorModel::MissingType {
                filename: filename@,
            },
            CompileError::UnknownType { filename, bpmn_type } => CompileErrorModel::UnknownType {
                filename: filename@,
                bpmn_type: bpmn_type@,
            },
            CompileError::DeserializationError { filename, message } =>
                CompileErrorModel::DeserializationError { filename: filename@, message: message@ },
            CompileError::InvalidGraph(errors) => CompileErrorModel::InvalidGraph(
                errors.deep_view(),
            ),
        }
    }
}

/// The human-readable text of a compile error.
pub open spec fn compile_error_text(e: CompileErrorModel) -> Seq<char> {
    match e {
        CompileErrorModel::EmptyInputs => "No MDX inputs provided"@,
        CompileErrorModel::ParseError { filename, message } => "Failed to parse "@ + filename + ": "@
            + message,
        CompileErrorModel::MissingType { filename } => "Missing 'type' field in frontmatter of "@
            + filename,
        CompileErrorModel::UnknownType { filename, bpmn_type } => "Unknown BPMN type '"@ + bpmn_type
            + "' in "@ + filename,
        CompileErrorModel::DeserializationError { filename, message } => "Failed to deserialize "@
            + filename + " frontmatter: "@ + message,
        CompileErrorModel::InvalidGraph(errors) => "Graph validation failed:\n"@ + join_lines(errors),
    }
}

/// The given lines joined by line breaks.
fn join_error_lines(errors: &Vec<String>) -> (r: String)
    ensures
        r@ == join_lines(errors.deep_view()),
{
    let mut r = String::new();
    let mut i: usize = 0;
    let ghost es = errors.deep_view();
    while i < errors.len()
        invariant
            i <= errors.len(),
            es == errors.deep_view(),
            r@ == join_lines(es.take(i as int)),
        decreases errors.len() - i,
    {
        assert(es.take(i + 1).drop_last() =~= es.take(i as int));
        if i > 0 {
            r.append("\n");
        }
        r.append(errors[i].as_str());
        i = i + 1;
        proof {
            if i == 1 {
                assert(es.take(0) =~= Seq::<Seq<char>>::empty());
                assert(r@ =~= es.take(1)[0]);
            }
        }
    }
    assert(es.take(i as int) =~= es);
    r
}

impl CompileError {
    /// The human-readable text of the error.
    pub fn message(&self) -> (r: String)
        ensures
            r@ == compile_error_text(self@),
    {
        let r = match self {
            CompileError::EmptyInputs => String::from_str("No MDX inputs provided"),
            CompileError::ParseError { filename, message } => {
                let mut r = concat3("Failed to parse ", filename.as_str(), ": ");
                r.append(message.as_str());
                r
            },
            CompileError::MissingType { filename } => {
                let mut r = String::from_str("Missing 'type' field in frontmatter of ");
                r.append(filename.as_str());
                r
            },
            CompileError::UnknownType { filename, bpmn_type } => {
                let mut r = concat3("Unknown BPMN type '", bpmn_type.as_str(), "' in ");
                r.append(filename.as_str());
                r
            },
            CompileError::DeserializationError { filename, message } => {
                let mut r = concat3("Failed to deserialize ", filename.as_str(), " frontmatter: ");
                r.append(message.as_str());
                r
            },
            CompileError::InvalidGraph(errors) => {
                let mut r = String::from_str("Graph validation failed:\n");
                let lines = join_error_lines(errors);
                r.append(lines.as_str());
                r
            },
        };
        assert(r@ == compile_error_text(self@));
        r
    }
}

/// The kind of BPMN element a frontmatter declares.
#[derive(Clone, Copy, Debug, PartialEq, Eq, Structural)]
pub enum ElementKind {
    StartEvent,
    EndEvent,
    Task,
    ServiceTask,
    ScriptTask,
    ExclusiveGateway,
    ParallelGateway,
    SequenceFlow,
}

/// The element kind named by a frontmatter `type` value.
pub open spec fn kind_of_type(t: Seq<char>) -> Option<ElementKind> {
    if t == "bpmn:startEvent"@ {
        Some(ElementKind::StartEvent)
    } else if t == "bpmn:endEvent"@ {
        Some(ElementKind::EndEvent)
    } else if t == "bpmn:task"@ {
        Some(ElementKind::Task)
    } else if t == "bpmn:serviceTask"@ {
        Some(ElementKind::ServiceTask)
    } else if t == "bpmn:scriptTask"@ {
        Some(ElementKind::ScriptTask)
    } else if t == "bpmn:exclusiveGateway"@ {
        Some(ElementKind::ExclusiveGateway)
    } else if t == "bpmn:parallelGateway"@ {
        Some(ElementKind::ParallelGateway)
    } else if t == "bpmn:sequenceFlow"@ {
        Some(ElementKind::SequenceFlow)
    } else {
        None
    }
}

/// Whether `t` equals the literal `lit`.
fn is_literal(t: &String, lit: &str) -> (r: bool)
    ensures
        r == (t@ == lit@),
{
    let l = String::from_str(lit);
    t.eq(&l)
}

/// The element kind named by a frontmatter `type` value.
pub fn element_kind(t: &String) -> (r: Option<ElementKind>)
    ensures
        r == kind_of_type(t@),
{
    if is_literal(t, "bpmn:startEvent") {
        Some(ElementKind::StartEvent)
    } else if is_literal(t, "bpmn:endEvent") {
        Some(ElementKind::EndEvent)
    } else if is_literal(t, "bpmn:task") {
        Some(ElementKind::Task)
    } else if is_literal(t, "bpmn:serviceTask") {
        Some(ElementKind::ServiceTask)
    } else if is_literal(t, "bpmn:scriptTask") {
        Some(ElementKind::ScriptTask)
    } else if is_literal(t, "bpmn:exclusiveGateway") {
        Some(ElementKind::ExclusiveGateway)
    } else if is_literal(t, "bpmn:parallelGateway") {
        Some(ElementKind::ParallelGateway)
    } else if is_literal(t, "bpmn:sequenceFlow") {
        Some(ElementKind::SequenceFlow)
    } else {
        None
    }
}

/// A decoded BPMN element.
pub enum Element {
    StartEvent(StartEvent),
    EndEvent(EndEvent),
    Task(Task),
    ServiceTask(ServiceTask),
    ScriptTask(ScriptTask),
    ExclusiveGateway(ExclusiveGateway),
    ParallelGateway(ParallelGateway),
    SequenceFlow(SequenceFlow),
}

/// Abstract value of an [`Element`].
pub enum ElementModel {
    StartEvent(StartEventModel),
    EndEvent(EndEventModel),
    Task(TaskModel),
    ServiceTask(ServiceTaskModel),
    ScriptTask(ScriptTaskModel),
    ExclusiveGateway(ExclusiveGatewayModel),
    ParallelGateway(ParallelGatewayModel),
    SequenceFlow(SequenceFlowModel),
}

impl ElementModel {
    /// The kind of the element.
    pub open spec fn kind(self) -> ElementKind {
        match self {
            ElementModel::StartEvent(_) => ElementKind::StartEvent,
            ElementModel::EndEvent(_) => ElementKind::EndEvent,
            ElementModel::Task(_) => ElementKind::Task,
            ElementModel::ServiceTask(_) => ElementKind::ServiceTask,
            ElementModel::ScriptTask(_) => ElementKind::ScriptTask,
            ElementModel::ExclusiveGateway(_) => ElementKind::ExclusiveGateway,
            ElementModel::ParallelGateway(_) => ElementKind::ParallelGateway,
            ElementModel::SequenceFlow(_) => ElementKind::SequenceFlow,
        }
    }
}

impl View for Element {
    type V = ElementModel;

    open spec fn view(&self) -> ElementModel {
        match self {
            Element::StartEvent(e) => ElementModel::StartEvent(e@),
            Element::EndEvent(e) => ElementModel::EndEvent(e@),
            Element::Task(e) => ElementModel::Task(e@),
            Element::ServiceTask(e) => ElementModel::ServiceTask(e@),
            Element::ScriptTask(e) => ElementModel::ScriptTask(e@),
            Element::ExclusiveGateway(e) => ElementModel::ExclusiveGateway(e@),
            Element::ParallelGateway(e) => ElementModel::ParallelGateway(e@),
            Element::SequenceFlow(e) => ElementModel::SequenceFlow(e@),
        }
    }
}

impl Element {
    /// The kind of the element.
    pub fn kind(&self) -> (r: ElementKind)
        ensures
            r == self@.kind(),
    {
        match self {
            Element::StartEvent(_) => ElementKind::StartEvent,
            Element::EndEvent(_) => ElementKind::EndEvent,
            Element::Task(_) => ElementKind::Task,
            Element::ServiceTask(_) => ElementKind::ServiceTask,
            Element::ScriptTask(_) => ElementKind::ScriptTask,
            Element::ExclusiveGateway(_) => ElementKind::ExclusiveGateway,
            Element::ParallelGateway(_) => ElementKind::ParallelGateway,
            Element::SequenceFlow(_) => ElementKind::SequenceFlow,
        }
    }
}

/// The message of an MDX framing error.
pub open spec fn mdx_error_text(e: MdxError) -> Seq<char> {
    match e {
        MdxError::MissingOpeningDelimiter => "MDX content must start with a '---' frontmatter delimiter"@,
        MdxError::MissingClosingDelimiter => "MDX frontmatter is not closed by a '---' line"@,
    }
}

/// The element kind and frontmatter text of an input, or the error that
/// framing it gives.
pub open spec fn frame(input: MdxInputModel) -> Result<(ElementKind, Seq<char>), CompileErrorModel> {
    match split_mdx(input.content) {
        Err(e) => Err(CompileErrorModel::ParseError { filename: input.filename, message: mdx_error_text(e) }),
        Ok((fm, _body)) => match frontmatter_type(fm) {
            None => Err(CompileErrorModel::MissingType { filename: input.filename }),
            Some(t) => match kind_of_type(t) {
                None => Err(CompileErrorModel::UnknownType { filename: input.filename, bpmn_type: t }),
                Some(k) => Ok((k, fm)),
            },
        },
    }
}

/// The message used when a decoder returns an element of another kind than
/// the frontmatter names.
pub open spec fn kind_mismatch_text() -> Seq<char> {
    "decoded element does not match the frontmatter type"@
}

/// The process that compilation starts from.
pub open spec fn initial_process() -> ProcessModel {
    ProcessModel {
        id: "process_1"@,
        name: None,
        is_executable: Some(true),
        process_type: None,
        documentation: None,
        start_events: Seq::empty(),
        end_events: Seq::empty(),
        tasks: Seq::empty(),
        service_tasks: Seq::empty(),
        script_tasks: Seq::empty(),
        exclusive_gateways: Seq::empty(),
        parallel_gateways: Seq::empty(),
        sequence_flows: Seq::empty(),
    }
}

/// `p` with element `e` appended to the list of its kind.
pub open spec fn add_element(p: ProcessModel, e: ElementModel) -> ProcessModel {
    match e {
        ElementModel::StartEvent(x) => ProcessModel { start_events: p.start_events.push(x), ..p },
        ElementModel::EndEvent(x) => ProcessModel { end_events: p.end_events.push(x), ..p },
        ElementModel::Task(x) => ProcessModel { tasks: p.tasks.push(x), ..p },
        ElementModel::ServiceTask(x) => ProcessModel { service_tasks: p.service_tasks.push(x), ..p },
        ElementModel::ScriptTask(x) => ProcessModel { script_tasks: p.script_tasks.push(x), ..p },
        ElementModel::ExclusiveGateway(x) => ProcessModel {
            exclusive_gateways: p.exclusive_gateways.push(x),
            ..p
        },
        ElementModel::ParallelGateway(x) => ProcessModel {
            parallel_gateways: p.parallel_gateways.push(x),
            ..p
        },
        ElementModel::SequenceFlow(x) => ProcessModel { sequence_flows: p.sequence_flows.push(x), ..p },
    }
}

/// One input's contribution: frame it, then take its decoded element.
pub open spec fn place(
    p: ProcessModel,
    input: MdxInputModel,
    decoded: Result<ElementModel, Seq<char>>,
) -> Result<ProcessModel, CompileErrorModel> {
    match frame(input) {
        Err(e) => Err(e),
        Ok((k, _fm)) => match decoded {
            Err(m) => Err(CompileErrorModel::DeserializationError { filename: input.filename, message: m }),
            Ok(e) => if e.kind() == k {
                Ok(add_element(p, e))
            } else {
                Err(
                    CompileErrorModel::DeserializationError {
                        filename: input.filename,
                        message: kind_mismatch_text(),
                    },
                )
            },
        },
    }
}

/// The process assembled from the first `n` inputs, or the first error.
pub open spec fn assemble(
    inputs: Seq<MdxInputModel>,
    decoded: Seq<Result<ElementModel, Seq<char>>>,
    n: nat,
) -> Result<ProcessModel, CompileErrorModel>
    decreases n,
{
    if n == 0 {
        Ok(initial_process())
    } else {
        match assemble(inputs, decoded, (n - 1) as nat) {
            Err(e) => Err(e),
            Ok(p) => place(p, inputs[n - 1], decoded[n - 1]),
        }
    }
}

/// The result of compiling `inputs`, given what the decoder returned for
/// each of them.
pub open spec fn compile_result(
    inputs: Seq<MdxInputModel>,
    decoded: Seq<Result<ElementModel, Seq<char>>>,
) -> Result<DefinitionsModel, CompileErrorModel> {
    if inputs.len() == 0 {
        Err(CompileErrorModel::EmptyInputs)
    } else {
        match assemble(inputs, decoded, inputs.len()) {
            Err(e) => Err(e),
            Ok(p) => {
                let errors = validation_errors(domain_process(p));
                if errors.len() > 0 {
                    Err(CompileErrorModel::InvalidGraph(errors))
                } else {
                    Ok(
                        DefinitionsModel {
                            id: "definitions_1"@,
                            name: None,
                            target_namespace: None,
                            exporter: Some("detent"@),
                            exporter_version: None,
                            process: Some(p),
                            bpmn_diagram: None,
                        },
                    )
                }
            },
        }
    }
}

/// The abstract value of a compile outcome.
pub open spec fn outcome(r: Result<Definitions, CompileError>) -> Result<DefinitionsModel, CompileErrorModel> {
    match r {
        Ok(d) => Ok(d@),
        Err(e) => Err(e@),
    }
}

/// The abstract value of a decoder's answer.
pub open spec fn decoded_model(r: Result<Element, String>) -> Result<ElementModel, Seq<char>> {
    match r {
        Ok(e) => Ok(e@),
        Err(m) => Err(m@),
    }
}

/// Frame one input: split off its frontmatter and read the element kind.
pub fn frame_input(input: &MdxInput) -> (r: Result<(ElementKind, String), CompileError>)
    ensures
        match frame(input@) {
            Ok((k, fm)) => r matches Ok((k2, fm2)) && k2 == k && fm2@ == fm,
            Err(e) => r matches Err(e2) && e2@ == e,
        },
{
    let mdx = match MdxFile::parse(input.content.as_str()) {
        Ok(m) => m,
        Err(e) => {
            return Err(
                CompileError::ParseError { filename: copy_string(&input.filename), message: e.message() },
            );
        },
    };
    let bpmn_type = match extract_type(mdx.frontmatter.as_str()) {
        Some(t) => t,
        None => {
            return Err(CompileError::MissingType { filename: copy_string(&input.filename) });
        },
    };
    match element_kind(&bpmn_type) {
        Some(k) => Ok((k, mdx.frontmatter)),
        None => Err(CompileError::UnknownType { filename: copy_string(&input.filename), bpmn_type }),
    }
}

/// Append a copy of `e` to the list of its kind in `p`.
fn push_element(p: &mut Process, e: &Element)
    ensures
        final(p)@ == add_element(old(p)@, e@),
{
    match e {
        Element::StartEvent(x) => p.start_events.push(x.duplicate()),
        Element::EndEvent(x) => p.end_events.push(x.duplicate()),
        Element::Task(x) => p.tasks.push(x.duplicate()),
        Element::ServiceTask(x) => p.service_tasks.push(x.duplicate()),
        Element::ScriptTask(x) => p.script_tasks.push(x.duplicate()),
        Element::ExclusiveGateway(x) => p.exclusive_gateways.push(x.duplicate()),
        Element::ParallelGateway(x) => p.parallel_gateways.push(x.duplicate()),
        Element::SequenceFlow(x) => p.sequence_flows.push(x.duplicate()),
    }
    assert(p@ =~= add_element(old(p)@, e@));
}


/// The process compilation starts from.
fn initial_process_value() -> (p: Process)
    ensures
        p@ == initial_process(),
{
    let p = Process {
        id: String::from_str("process_1"),
        name: None,
        is_executable: Some(true),
        process_type: None,
        documentation: None,
        start_events: Vec::new(),
        end_events: Vec::new(),
        tasks: Vec::new(),
        service_tasks: Vec::new(),
        script_tasks: Vec::new(),
        exclusive_gateways: Vec::new(),
        parallel_gateways: Vec::new(),
        sequence_flows: Vec::new(),
    };
    assert(p@ =~= initial_process());
    p
}

/// Compile MDX inputs into BPMN definitions holding a single process.
///
/// `decoded[i]` is what decoding the frontmatter of `inputs[i]` into the
/// element its `type` names gave (an element, or the decoder's message).
/// Inputs are taken in order: the first one that cannot be framed, has no
/// or an unknown `type`, or whose decoding failed stops compilation with
/// the matching error. The assembled process must then pass graph
/// validation.
pub fn compile_to_definitions(inputs: &[MdxInput], decoded: &[Result<Element, String>]) -> (r: Result<
    Definitions,
    CompileError,
>)
    requires
        decoded.len() == inputs.len(),
    ensures
        outcome(r) == compile_result(inputs.deep_view(), decoded@.map_values(|d: Result<Element, String>| decoded_model(d))),
{
    let ghost ins = inputs.deep_view();
    let ghost dec = decoded@.map_values(|d: Result<Element, String>| decoded_model(d));
    if inputs.len() == 0 {
        return Err(CompileError::EmptyInputs);
    }
    let mut process = initial_process_value();
    let mut i: usize = 0;
    while i < inputs.len()
        invariant
            i <= inputs.len(),
            inputs.len() == decoded.len(),
            ins == inputs.deep_view(),
            dec == decoded@.map_values(|d: Result<Element, String>| decoded_model(d)),
            assemble(ins, dec, i as nat) == Ok::<ProcessModel, CompileErrorModel>(process@),
        decreases inputs.len() - i,
    {
        assert(ins[i as int] == inputs[i as int]@);
        assert(dec[i as int] == decoded_model(decoded[i as int]));
        let (k, _fm) = match frame_input(&inputs[i]) {
            Ok(x) => x,
            Err(e) => {
                proof { lemma_assemble_stops(ins, dec, (i + 1) as nat, inputs.len() as nat); }
                return Err(e);
            },
        };
        match &decoded[i] {
            Err(m) => {
                let e = CompileError::DeserializationError {
                    filename: copy_string(&inputs[i].filename),
                    message: copy_string(m),
                };
                proof { lemma_assemble_stops(ins, dec, (i + 1) as nat, inputs.len() as nat); }
                return Err(e);
            },
            Ok(el) => {
                if el.kind() == k {
                    push_element(&mut process, el);
                } else {
                    let e = CompileError::DeserializationError {
                        filename: copy_string(&inputs[i].filename),
                        message: String::from_str("decoded element does not match the frontmatter type"),
                    };
                    proof { lemma_assemble_stops(ins, dec, (i + 1) as nat, inputs.len() as nat); }
                    return Err(e);
                }
            },
        }
        i = i + 1;
    }
    let dp = to_domain_process(&process);
    let graph = Graph::new(&dp);
    match graph.validate() {
        Err(errors) => {
            return Err(CompileError::InvalidGraph(errors));
        },
        Ok(()) => {},
    }
    let d = Definitions {
        id: String::from_str("definitions_1"),
        name: None,
        target_namespace: None,
        exporter: Some(String::from_str("detent")),
        exporter_version: None,
        process: Some(process),
        bpmn_diagram: None,
    };
    assert(outcome(Ok(d)) =~= compile_result(ins, dec));
    Ok(d)
}

/// Once assembling stops with an error, it stays stopped with that error.
proof fn lemma_assemble_stops(
    inputs: Seq<MdxInputModel>,
    decoded: Seq<Result<ElementModel, Seq<char>>>,
    n: nat,
    m: nat,
)
    requires
        n <= m,
        assemble(inputs, decoded, n) is Err,
    ensures
        assemble(inputs, decoded, m) == assemble(inputs, decoded, n),
    decreases m - n,
{
    if n < m {
        lemma_assemble_stops(inputs, decoded, n, (m - 1) as nat);
    }
}

} // verus!
