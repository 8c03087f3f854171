//! The MDX files the `import` command writes for a BPMN document: one per
//! flow element, each a frontmatter block with a `type:` line and the
//! element's YAML.

use vstd::prelude::*;
use crate::bpmn::types::{
    Definitions, DefinitionsModel, EndEvent, EndEventModel, ExclusiveGateway, ExclusiveGatewayModel,
    ParallelGateway, ParallelGatewayModel, ScriptTask, ScriptTaskModel, SequenceFlow,
    SequenceFlowModel, ServiceTask, ServiceTaskModel, StartEvent, StartEventModel, Task, TaskModel,
};
use crate::compiler::compile::{Element, ElementModel};
use crate::patterns::{replace_all, rewrite_all};
use crate::compiler::mdx::{closing, dashes, find_closing, find_first, starts_with_dashes};
use crate::text::{
    char_is_ws, copy_string, lemma_line_end_exact, line_end, to_chars, trim_start, Duplicate,
};
use crate::transpiler::import::{
    mdx_file_name, MdxOutput, MdxOutputModel, AT_DOUBLE, AT_SINGLE, DOLLAR_DOUBLE, DOLLAR_SINGLE,
    PLAIN_KEY, SPACED_KEY,
};

verus! {

/// Unquoted key with a `$` prefix at the start of a line (the start of the
/// text included) or after whitespace.
pub const DOLLAR_AT_LINE_START: &'static str = r"(^|\s)\$([a-zA-Z_][a-zA-Z0-9_]*):";

/// YAML as the `import` command writes it: quoted `@` and `$` key prefixes
/// and unquoted `$` prefixes at the start of a line or after whitespace
/// rewritten away, in a fixed order of five rewrites.
pub open spec fn command_clean_yaml(yaml: Seq<char>) -> Seq<char> {
    let a = rewrite_all(AT_SINGLE@, yaml, PLAIN_KEY@);
    let b = rewrite_all(AT_DOUBLE@, a, PLAIN_KEY@);
    let c = rewrite_all(DOLLAR_SINGLE@, b, PLAIN_KEY@);
    let d = rewrite_all(DOLLAR_DOUBLE@, c, PLAIN_KEY@);
    rewrite_all(DOLLAR_AT_LINE_START@, d, SPACED_KEY@)
}

/// Clean YAML for the frontmatter the `import` command writes.
pub fn clean_yaml_for_mdx(yaml: &str) -> (r: String)
    ensures
        r@ == command_clean_yaml(yaml@),
{
    let a = replace_all(AT_SINGLE, yaml, PLAIN_KEY);
    let b = replace_all(AT_DOUBLE, a.as_str(), PLAIN_KEY);
    let c = replace_all(DOLLAR_SINGLE, b.as_str(), PLAIN_KEY);
    let d = replace_all(DOLLAR_DOUBLE, c.as_str(), PLAIN_KEY);
    replace_all(DOLLAR_AT_LINE_START, d.as_str(), SPACED_KEY)
}

/// The content of an element's MDX file: the `type:` line and the cleaned
/// YAML between frontmatter delimiters.
pub open spec fn element_mdx_content(bpmn_type: Seq<char>, yaml: Seq<char>) -> Seq<char> {
    "---\ntype: "@ + bpmn_type + "\n"@ + command_clean_yaml(yaml) + "---\n"@
}

/// The MDX file of the element `id` of type `bpmn_type` with the YAML
/// `yaml`.
pub fn mdx_file(id: &str, bpmn_type: &str, yaml: &str) -> (r: MdxOutput)
    ensures
        r@ == (MdxOutputModel {
            filename: mdx_file_name(id@),
            content: element_mdx_content(bpmn_type@, yaml@),
        }),
{
    let clean = clean_yaml_for_mdx(yaml);
    let mut content = String::from_str("---\ntype: ");
    content.append(bpmn_type);
    content.append("\n");
    content.append(clean.as_str());
    content.append("---\n");
    let mut filename = String::from_str(id);
    filename.append(".mdx");
    MdxOutput { filename, content }
}

/// The text after the first line break of `s` (empty when it has none).
pub open spec fn after_first_line(s: Seq<char>) -> Seq<char> {
    if line_end(s) < s.len() {
        s.subrange(line_end(s) as int + 1, s.len() as int)
    } else {
        Seq::empty()
    }
}

/// The body of an existing MDX file, exactly as written: everything after
/// the line of the `---` delimiter that closes its frontmatter. None when
/// the file (after leading whitespace) does not open with `---` or has no
/// closing delimiter.
pub open spec fn existing_body(old: Seq<char>) -> Option<Seq<char>> {
    let t = trim_start(old);
    if t.len() < 3 || t.subrange(0, 3) != dashes() {
        None
    } else {
        let rest = t.subrange(3, t.len() as int);
        match find_first(rest, closing()) {
            None => None,
            Some(e) => Some(after_first_line(rest.subrange(e + 4, rest.len() as int))),
        }
    }
}

/// The content written for an element file that may already exist (bodies
/// survive re-import): the new content, followed by the existing file's
/// body as written when the existing file has frontmatter. An existing file
/// without frontmatter is overwritten.
pub open spec fn merged_mdx(new_content: Seq<char>, existing: Option<Seq<char>>) -> Seq<char> {
    match existing {
        Some(old) => match existing_body(old) {
            Some(body) => new_content + body,
            None => new_content,
        },
        None => new_content,
    }
}

/// The body of an existing MDX file, exactly as written.
pub fn mdx_body(old: &str) -> (r: Option<String>)
    ensures
        r.deep_view() == existing_body(old@),
{
    let c = to_chars(old);
    let n = c.len();
    let mut a: usize = 0;
    assert(c@.subrange(0, n as int) =~= old@);
    while a < n && char_is_ws(c[a])
        invariant
            a <= n,
            n == c@.len(),
            c@ == old@,
            trim_start(old@) == trim_start(c@.subrange(a as int, n as int)),
        decreases n - a,
    {
        assert(c@.subrange(a as int, n as int).drop_first() =~= c@.subrange(a + 1, n as int));
        a = a + 1;
    }
    let ghost t = c@.subrange(a as int, n as int);
    assert(trim_start(t) == t);
    if !starts_with_dashes(&c, a, n) {
        return None;
    }
    let ghost rest = t.subrange(3, t.len() as int);
    assert(c@.subrange(a + 3, n as int) =~= rest);
    match find_closing(&c, a + 3, n) {
        None => None,
        Some(i) => {
            let ghost after = rest.subrange(i - (a + 3) + 4, rest.len() as int);
            assert(after =~= c@.subrange(i + 4, n as int));
            let mut j = i + 4;
            while j < n && c[j] != '\n'
                invariant
                    i + 4 <= j <= n,
                    n == c@.len(),
                    forall|k: int| i + 4 <= k < j ==> c@[k] != '\n',
                decreases n - j,
            {
                j = j + 1;
            }
            proof {
                assert forall|k: int| 0 <= k < j - (i + 4) implies after[k] != '\n' by {
                    assert(after[k] == c@[i + 4 + k]);
                }
                if j < n {
                    assert(after[j - (i + 4)] == c@[j as int]);
                }
                lemma_line_end_exact(after, j - (i + 4));
            }
            if j < n {
                assert(after.subrange(j - (i + 4) + 1, after.len() as int) =~= c@.subrange(j + 1, n as int));
                Some(String::from_str(old.substring_char(j + 1, n)))
            } else {
                Some(String::new())
            }
        },
    }
}

/// The content to write for an element file, keeping the body of the file
/// already there, if any.
pub fn merge_mdx(new_content: &str, existing: Option<&str>) -> (r: String)
    ensures
        r@ == merged_mdx(
            new_content@,
            match existing {
                Some(e) => Some(e@),
                None => None,
            },
        ),
{
    let mut r = String::from_str(new_content);
    match existing {
        Some(old) => match mdx_body(old) {
            Some(b) => r.append(b.as_str()),
            None => {},
        },
        None => {},
    }
    r
}

/// One element the `import` command writes: its id, its BPMN type and the
/// element itself.
pub struct ImportItem {
    pub id: String,
    pub bpmn_type: String,
    pub element: Element,
}

/// Abstract value of an [`ImportItem`].
pub struct ImportItemModel {
    pub id: Seq<char>,
    pub bpmn_type: Seq<char>,
    pub element: ElementModel,
}

impl View for ImportItem {
    type V = ImportItemModel;

    open spec fn view(&self) -> ImportItemModel {
        ImportItemModel { id: self.id@, bpmn_type: self.bpmn_type@, element: self.element@ }
    }
}

impl DeepView for ImportItem {
    type V = ImportItemModel;

    open spec fn deep_view(&self) -> ImportItemModel {
        self@
    }
}

/// The BPMN type name written for an element.
pub open spec fn element_type_name(e: ElementModel) -> Seq<char> {
    match e {
        ElementModel::StartEvent(_) => "bpmn:startEvent"@,
        ElementModel::EndEvent(_) => "bpmn:endEvent"@,
        ElementModel::Task(_) => "bpmn:task"@,
        ElementModel::ServiceTask(_) => "bpmn:serviceTask"@,
        ElementModel::ScriptTask(_) => "bpmn:scriptTask"@,
        ElementModel::ExclusiveGateway(_) => "bpmn:exclusiveGateway"@,
        ElementModel::ParallelGateway(_) => "bpmn:parallelGateway"@,
        ElementModel::SequenceFlow(_) => "bpmn:sequenceFlow"@,
    }
}

/// The id of an element.
pub open spec fn element_id(e: ElementModel) -> Seq<char> {
    match e {
        ElementModel::StartEvent(x) => x.id,
        ElementModel::EndEvent(x) => x.id,
        ElementModel::Task(x) => x.id,
        ElementModel::ServiceTask(x) => x.id,
        ElementModel::ScriptTask(x) => x.id,
        ElementModel::ExclusiveGateway(x) => x.id,
        ElementModel::ParallelGateway(x) => x.id,
        ElementModel::SequenceFlow(x) => x.id,
    }
}

/// The item written for an element.
pub open spec fn item_of(e: ElementModel) -> ImportItemModel {
    ImportItemModel { id: element_id(e), bpmn_type: element_type_name(e), element: e }
}

/// The elements of a document's process in the order the `import` command
/// writes them: start events, end events, tasks, service tasks, script
/// tasks, exclusive gateways, parallel gateways, sequence flows, each kind
/// in document order; none without a process.
pub open spec fn import_items_of(d: DefinitionsModel) -> Option<Seq<ImportItemModel>> {
    match d.process {
        None => None,
        Some(p) => Some(
            items_of::<StartEvent>(p.start_events) + items_of::<EndEvent>(p.end_events) + items_of::<Task>(
                p.tasks,
            ) + items_of::<ServiceTask>(p.service_tasks) + items_of::<ScriptTask>(p.script_tasks)
                + items_of::<ExclusiveGateway>(p.exclusive_gateways) + items_of::<ParallelGateway>(
                p.parallel_gateways,
            ) + items_of::<SequenceFlow>(p.sequence_flows),
        ),
    }
}

/// The item written for an element.
fn item(e: Element) -> (r: ImportItem)
    ensures
        r@ == item_of(e@),
{
    let (id, t) = match &e {
        Element::StartEvent(x) => (copy_string(&x.id), "bpmn:startEvent"),
        Element::EndEvent(x) => (copy_string(&x.id), "bpmn:endEvent"),
        Element::Task(x) => (copy_string(&x.id), "bpmn:task"),
        Element::ServiceTask(x) => (copy_string(&x.id), "bpmn:serviceTask"),
        Element::ScriptTask(x) => (copy_string(&x.id), "bpmn:scriptTask"),
        Element::ExclusiveGateway(x) => (copy_string(&x.id), "bpmn:exclusiveGateway"),
        Element::ParallelGateway(x) => (copy_string(&x.id), "bpmn:parallelGateway"),
        Element::SequenceFlow(x) => (copy_string(&x.id), "bpmn:sequenceFlow"),
    };
    ImportItem { id, bpmn_type: String::from_str(t), element: e }
}

/// Element types that the `import` command writes.
pub trait IntoElement: Duplicate {
    /// The element an abstract value stands for.
    spec fn element_of(m: Self::V) -> ElementModel;

    fn into_element(self) -> (r: Element)
        ensures
            r@ == Self::element_of(self.deep_view()),
    ;
}

impl IntoElement for StartEvent {
    open spec fn element_of(m: StartEventModel) -> ElementModel {
        ElementModel::StartEvent(m)
    }

    fn into_element(self) -> (r: Element) {
        Element::StartEvent(self)
    }
}

impl IntoElement for EndEvent {
    open spec fn element_of(m: EndEventModel) -> ElementModel {
        ElementModel::EndEvent(m)
    }

    fn into_element(self) -> (r: Element) {
        Element::EndEvent(self)
    }
}

impl IntoElement for Task {
    open spec fn element_of(m: TaskModel) -> ElementModel {
        ElementModel::Task(m)
    }

    fn into_element(self) -> (r: Element) {
        Element::Task(self)
    }
}

impl IntoElement for ServiceTask {
    open spec fn element_of(m: ServiceTaskModel) -> ElementModel {
        ElementModel::ServiceTask(m)
    }

    fn into_element(self) -> (r: Element) {
        Element::ServiceTask(self)
    }
}

impl IntoElement for ScriptTask {
    open spec fn element_of(m: ScriptTaskModel) -> ElementModel {
        ElementModel::ScriptTask(m)
    }

    fn into_element(self) -> (r: Element) {
        Element::ScriptTask(self)
    }
}

impl IntoElement for ExclusiveGateway {
    open spec fn element_of(m: ExclusiveGatewayModel) -> ElementModel {
        ElementModel::ExclusiveGateway(m)
    }

    fn into_element(self) -> (r: Element) {
        Element::ExclusiveGateway(self)
    }
}

impl IntoElement for ParallelGateway {
    open spec fn element_of(m: ParallelGatewayModel) -> ElementModel {
        ElementModel::ParallelGateway(m)
    }

    fn into_element(self) -> (r: Element) {
        Element::ParallelGateway(self)
    }
}

impl IntoElement for SequenceFlow {
    open spec fn element_of(m: SequenceFlowModel) -> ElementModel {
        ElementModel::SequenceFlow(m)
    }

    fn into_element(self) -> (r: Element) {
        Element::SequenceFlow(self)
    }
}

/// The items of the elements of one list, in order.
pub open spec fn items_of<T: IntoElement>(items: Seq<T::V>) -> Seq<ImportItemModel> {
    items.map_values(|m: T::V| item_of(T::element_of(m)))
}

/// Append the items of `items` to `out`.
fn push_items<T: IntoElement>(out: &mut Vec<ImportItem>, items: &Vec<T>)
    ensures
        final(out).deep_view() == old(out).deep_view() + items_of::<T>(items.deep_view()),
{
    let ghost start = out.deep_view();
    let mut i: usize = 0;
    while i < items.len()
        invariant
            i <= items.len(),
            out.deep_view() == start + items_of::<T>(items.deep_view().take(i as int)),
        decreases items.len() - i,
    {
        let ghost before = out.deep_view();
        assert(items.deep_view()[i as int] == items[i as int].deep_view());
        let x = items[i].duplicate();
        out.push(item(x.into_element()));
        assert(out.deep_view() =~= before.push(item_of(T::element_of(items.deep_view()[i as int]))));
        i = i + 1;
        assert(items.deep_view().take(i as int).drop_last() =~= items.deep_view().take(i - 1));
        assert(out.deep_view() =~= start + items_of::<T>(items.deep_view().take(i as int)));
    }
    assert(items.deep_view().take(i as int) =~= items.deep_view());
}

/// The elements the `import` command writes for `definitions`, in order;
/// `None` when the document has no process.
pub fn import_items(definitions: &Definitions) -> (r: Option<Vec<ImportItem>>)
    ensures
        match import_items_of(definitions@) {
            Some(items) => r matches Some(v) && v.deep_view() == items,
            None => r is None,
        },
{
    let p = match &definitions.process {
        Some(p) => p,
        None => {
            return None;
        },
    };
    assert(definitions@.process == Some(p@));
    let mut out: Vec<ImportItem> = Vec::new();
    assert(out.deep_view() =~= Seq::<ImportItemModel>::empty());
    push_items(&mut out, &p.start_events);
    push_items(&mut out, &p.end_events);
    push_items(&mut out, &p.tasks);
    push_items(&mut out, &p.service_tasks);
    push_items(&mut out, &p.script_tasks);
    push_items(&mut out, &p.exclusive_gateways);
    push_items(&mut out, &p.parallel_gateways);
    push_items(&mut out, &p.sequence_flows);
    assert(out.deep_view() =~= import_items_of(definitions@)->Some_0);
    Some(out)
}

} // verus!
