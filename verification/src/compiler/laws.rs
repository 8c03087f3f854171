//! Properties of compilation as a whole.

use vstd::prelude::*;
use crate::bpmn::types::ProcessModel;
use crate::compiler::compile::{
    add_element, assemble, compile_result, frame, initial_process, kind_of_type, place,
    CompileErrorModel, ElementKind, ElementModel, MdxInputModel,
};
use crate::compiler::mdx::{
    closing, dashes, find_first, frontmatter_type, matches_at, split_mdx, type_prefix, type_value,
};
use crate::domain::process_graph::validation_errors;
use crate::graph_validation::domain_process;
use crate::text::{is_ws, lemma_line_end_exact, line_end, trim, trim_end, trim_start};
use crate::transpiler::import::mdx_content;
use crate::commands::import::merged_mdx;

verus! {

/// The number of flow elements of a process, all kinds together.
pub open spec fn element_count(p: ProcessModel) -> nat {
    p.start_events.len() + p.end_events.len() + p.tasks.len() + p.service_tasks.len()
        + p.script_tasks.len() + p.exclusive_gateways.len() + p.parallel_gateways.len()
        + p.sequence_flows.len()
}

/// Input `i` was read successfully: it frames, names a known element type,
/// and decoded to an element of that type.
pub open spec fn input_accepted(
    inputs: Seq<MdxInputModel>,
    decoded: Seq<Result<ElementModel, Seq<char>>>,
    i: int,
) -> bool {
    &&& frame(inputs[i]) is Ok
    &&& decoded[i] is Ok
    &&& decoded[i]->Ok_0.kind() == frame(inputs[i])->Ok_0.0
}

proof fn lemma_assemble_ok(
    inputs: Seq<MdxInputModel>,
    decoded: Seq<Result<ElementModel, Seq<char>>>,
    n: nat,
)
    requires
        assemble(inputs, decoded, n) is Ok,
    ensures
        element_count(assemble(inputs, decoded, n)->Ok_0) == n,
        forall|i: int| 0 <= i < n ==> #[trigger] input_accepted(inputs, decoded, i),
    decreases n,
{
    if n > 0 {
        let prev = assemble(inputs, decoded, (n - 1) as nat);
        assert(prev is Ok);
        lemma_assemble_ok(inputs, decoded, (n - 1) as nat);
        let p = prev->Ok_0;
        let e = decoded[n - 1]->Ok_0;
        assert(place(p, inputs[n - 1], decoded[n - 1]) == Ok::<ProcessModel, crate::compiler::compile::CompileErrorModel>(add_element(p, e)));
        assert(element_count(add_element(p, e)) == element_count(p) + 1);
        assert(input_accepted(inputs, decoded, n - 1));
    } else {
        assert(element_count(initial_process()) == 0);
    }
}

/// A compilation that succeeds has read every input: each one frames,
/// names a known element type and was decoded to an element of that type.
/// The document holds a single process with exactly one element per input,
/// and that process passes graph validation.
pub proof fn law_compile_success(
    inputs: Seq<MdxInputModel>,
    decoded: Seq<Result<ElementModel, Seq<char>>>,
)
    requires
        compile_result(inputs, decoded) is Ok,
    ensures
        inputs.len() > 0,
        compile_result(inputs, decoded)->Ok_0.process is Some,
        element_count(compile_result(inputs, decoded)->Ok_0.process->Some_0) == inputs.len(),
        validation_errors(domain_process(compile_result(inputs, decoded)->Ok_0.process->Some_0)).len() == 0,
        forall|i: int| 0 <= i < inputs.len() ==> #[trigger] input_accepted(inputs, decoded, i),
{
    lemma_assemble_ok(inputs, decoded, inputs.len());
}


/// Trailing whitespace is removed from the end only.
proof fn lemma_trim_end_append(a: Seq<char>, b: Seq<char>)
    requires
        a.len() > 0,
        !is_ws(a.last()),
    ensures
        trim_end(a + b) == a + trim_end(b),
    decreases b.len(),
{
    if b.len() == 0 {
        assert(a + b =~= a);
        assert(a + trim_end(b) =~= a);
    } else {
        assert((a + b).last() == b.last());
        if is_ws(b.last()) {
            assert((a + b).drop_last() =~= a + b.drop_last());
            lemma_trim_end_append(a, b.drop_last());
        }
    }
}

/// `find_first` is the one position where `pat` occurs with no earlier
/// occurrence.
proof fn lemma_find_first_at(s: Seq<char>, pat: Seq<char>, e: int)
    requires
        matches_at(s, pat, e),
        forall|j: int| 0 <= j < e ==> !matches_at(s, pat, j),
    ensures
        find_first(s, pat) == Some(e),
{
    reveal(find_first);
    let i = choose|i: int| matches_at(s, pat, i) && forall|j: int| 0 <= j < i ==> !matches_at(s, pat, j);
    assert(matches_at(s, pat, i));
    if i < e {
        assert(!matches_at(s, pat, i));
    }
    if i > e {
        assert(!matches_at(s, pat, e));
    }
}

/// The first `"\n---"` of `nf + "\n---" + rest` is the one after `nf`
/// when `nf` holds none.
proof fn lemma_first_closing(nf: Seq<char>, rest: Seq<char>)
    requires
        no_closing_in(nf),
    ensures
        find_first(nf + closing() + rest, closing()) == Some(nf.len() as int),
{
    let s = nf + closing() + rest;
    let e: int = nf.len() as int;
    assert(s.subrange(e, e + 4) =~= closing());
    assert forall|j: int| 0 <= j < e implies !matches_at(s, closing(), j) by {
        if j + 4 <= e {
            assert(s.subrange(j, j + 4) =~= nf.subrange(j, j + 4));
            assert(!matches_at(nf, closing(), j));
        } else {
            assert(s[e] == '\n');
            if matches_at(s, closing(), j) {
                assert(s.subrange(j, j + 4)[e - j] == s[e]);
                assert(closing()[e - j] == '-');
            }
        }
    }
    lemma_find_first_at(s, closing(), e);
}

/// `"\n---"` does not occur in `s`.
pub open spec fn no_closing_in(s: Seq<char>) -> bool {
    forall|j: int| !#[trigger] matches_at(s, closing(), j)
}

/// Reading back a frontmatter block: MDX content made of `---`, a line
/// break, the frontmatter text `fm`, a line break, `---` and any body is
/// split into `fm` (trimmed) as its frontmatter, provided `fm` after a line
/// break holds no line starting with `---`.
#[verifier::spinoff_prover]
pub proof fn law_frontmatter_read_back(fm: Seq<char>, body: Seq<char>)
    requires
        no_closing_in(seq!['\n'] + fm),
    ensures
        split_mdx(seq!['-', '-', '-', '\n'] + fm + closing() + body) == Ok::<
            (Seq<char>, Seq<char>),
            crate::compiler::mdx::MdxError,
        >((trim(fm), trim_end(body))),
{
    let head = seq!['-', '-', '-', '\n'] + fm + closing();
    let c = head + body;
    assert(head.last() == '-');
    lemma_trim_end_append(head, body);
    assert(c[0] == '-');
    assert(trim_start(c) == c);
    let t = trim(c);
    assert(t == head + trim_end(body));
    assert(t.subrange(0, 3) =~= dashes());
    let rest = t.subrange(3, t.len() as int);
    let nf = seq!['\n'] + fm;
    let e: int = fm.len() as int + 1;
    assert(rest =~= nf + closing() + trim_end(body));
    lemma_first_closing(nf, trim_end(body));
    assert(rest.subrange(0, e) =~= nf);
    assert(nf.drop_first() =~= fm);
    assert(trim_start(nf) == trim_start(fm));
    assert(rest.subrange(e + 4, rest.len() as int) =~= trim_end(body));
}


/// The `type: ` text that starts a type line.
pub open spec fn type_line_start() -> Seq<char> {
    seq!['t', 'y', 'p', 'e', ':', ' ']
}

/// A one-line text with no whitespace at either end.
pub open spec fn is_plain_word(t: Seq<char>) -> bool {
    &&& t.len() > 0
    &&& !is_ws(t[0])
    &&& !is_ws(t.last())
    &&& forall|i: int| 0 <= i < t.len() ==> t[i] != '\n'
}

/// The type a frontmatter starting with the line `type: t` declares is `t`.
#[verifier::spinoff_prover]
proof fn lemma_type_line(t: Seq<char>, y: Seq<char>)
    requires
        is_plain_word(t),
    ensures
        frontmatter_type(trim(type_line_start() + t + seq!['\n'] + y)) == Some(t),
{
    let line = type_line_start() + t;
    let fm = line + seq!['\n'] + y;
    assert(fm =~= line + (seq!['\n'] + y));
    assert(line.last() == t.last());
    lemma_trim_end_append(line, seq!['\n'] + y);
    assert(fm[0] == 't');
    assert(trim_start(fm) == fm);
    let s = trim(fm);
    let rest = trim_end(seq!['\n'] + y);
    assert(s == line + rest);
    let k: int = line.len() as int;
    assert forall|j: int| 0 <= j < k implies s[j] != '\n' by {
        assert(s[j] == line[j]);
        if j >= 6 {
            assert(line[j] == t[j - 6]);
        }
    }
    if rest.len() > 0 {
        // trailing whitespace removal keeps the leading line break when
        // anything else remains
        lemma_trim_end_keeps_head(seq!['\n'], y);
        assert(s[k] == rest[0]);
    }
    lemma_line_end_exact(s, k);
    assert(s.subrange(0, k) =~= line);
    assert(trim_start(line) == line);
    lemma_trim_end_append(line, Seq::<char>::empty());
    assert(line + Seq::<char>::empty() =~= line);
    assert(trim(line) == line);
    assert(line.subrange(0, 5) =~= type_prefix());
    let v = line.subrange(5, line.len() as int);
    assert(v =~= seq![' '] + t);
    assert((seq![' '] + t).drop_first() =~= t);
    assert(trim_start(t) == t);
    assert(trim_start(v) == t);
    lemma_trim_end_append(t, Seq::<char>::empty());
    assert(t + Seq::<char>::empty() =~= t);
    assert(type_value(s.subrange(0, k)) == Some(t));
}

/// A text that trims to something non-empty keeps its first character if
/// that is not trailing whitespace: `trim_end(a + b)` starts with `a` when
/// it is longer than `a`.
proof fn lemma_trim_end_keeps_head(a: Seq<char>, b: Seq<char>)
    requires
        trim_end(a + b).len() > 0,
        a.len() > 0,
    ensures
        trim_end(a + b).len() >= a.len() ==> trim_end(a + b).subrange(0, a.len() as int) == a,
        trim_end(a + b)[0] == a[0],
{
    lemma_trim_end_prefix(a + b);
    if b.len() == 0 {
        assert(a + b =~= a);
    }
    let t = trim_end(a + b);
    assert(t[0] == (a + b)[0]);
    if t.len() >= a.len() {
        assert(t.subrange(0, a.len() as int) =~= (a + b).subrange(0, a.len() as int));
        assert((a + b).subrange(0, a.len() as int) =~= a);
    }
}

/// `trim_end(s)` is a prefix of `s`.
proof fn lemma_trim_end_prefix(s: Seq<char>)
    ensures
        trim_end(s).len() <= s.len(),
        trim_end(s) =~= s.subrange(0, trim_end(s).len() as int),
    decreases s.len(),
{
    if s.len() > 0 && is_ws(s.last()) {
        lemma_trim_end_prefix(s.drop_last());
        assert(s.drop_last().subrange(0, trim_end(s).len() as int) =~= s.subrange(0, trim_end(s).len() as int));
    }
}

/// What compilation reads back of an element file written by the import:
/// for a type name `t` (one line, no whitespace at either end) and element
/// YAML that ends with a line break and holds no line starting with `---`,
/// framing the file gives the element kind `t` names, with the type line
/// and the YAML (trimmed) as the frontmatter; a `t` that names no element
/// kind gives the unknown-type error for `t`.
#[verifier::spinoff_prover]
pub proof fn law_imported_file_frames(filename: Seq<char>, t: Seq<char>, y: Seq<char>)
    requires
        is_plain_word(t),
        no_closing_in(seq!['\n'] + y),
    ensures
        frame(MdxInputModel { filename, content: mdx_content(t, y + seq!['\n'], None) }) == match kind_of_type(t) {
            Some(k) => Ok::<(crate::compiler::compile::ElementKind, Seq<char>), CompileErrorModel>(
                (k, trim(type_line_start() + t + seq!['\n'] + y)),
            ),
            None => Err(CompileErrorModel::UnknownType { filename, bpmn_type: t }),
        },
{
    reveal_strlit("---\ntype: ");
    reveal_strlit("\n");
    reveal_strlit("---\n");
    let fm = type_line_start() + t + seq!['\n'] + y;
    let content = mdx_content(t, y + seq!['\n'], None);
    assert(content =~= seq!['-', '-', '-', '\n'] + fm + closing() + seq!['\n']);
    let nf = seq!['\n'] + fm;
    let o: int = 7 + t.len() as int;
    assert forall|j: int| !#[trigger] matches_at(nf, closing(), j) by {
        if matches_at(nf, closing(), j) {
            assert(nf.subrange(j, j + 4)[0] == nf[j]);
            assert(nf.subrange(j, j + 4)[1] == nf[j + 1]);
            if j == 0 {
                assert(nf[1] == 't');
            } else if j < o {
                if j <= 6 {
                    assert(nf[j] == type_line_start()[j - 1]);
                } else {
                    assert(nf[j] == t[j - 7]);
                }
            } else {
                let ny = seq!['\n'] + y;
                assert(nf.subrange(o, nf.len() as int) =~= ny);
                assert(nf.subrange(j, j + 4) =~= ny.subrange(j - o, j - o + 4));
                assert(matches_at(ny, closing(), j - o));
            }
        }
    }
    law_frontmatter_read_back(fm, seq!['\n']);
    lemma_type_line(t, y);
}

/// Compilation is deterministic: the same inputs, with the same decoded
/// frontmatter, give the same outcome.
pub proof fn law_compile_deterministic(
    inputs1: Seq<MdxInputModel>,
    inputs2: Seq<MdxInputModel>,
    decoded1: Seq<Result<ElementModel, Seq<char>>>,
    decoded2: Seq<Result<ElementModel, Seq<char>>>,
)
    requires
        inputs1 == inputs2,
        decoded1 == decoded2,
    ensures
        compile_result(inputs1, decoded1) == compile_result(inputs2, decoded2),
{
}

/// Re-import keeps bodies as written: over an existing file made of `---`,
/// a line break, the frontmatter `fm`, a line break, `---`, a line break
/// and a body `b`, the merged content is the new content followed by `b`,
/// unchanged.
pub proof fn law_reimport_keeps_body(new_content: Seq<char>, fm: Seq<char>, b: Seq<char>)
    requires
        no_closing_in(seq!['\n'] + fm),
    ensures
        merged_mdx(
            new_content,
            Some(seq!['-', '-', '-', '\n'] + fm + closing() + seq!['\n'] + b),
        ) == new_content + b,
{
    let old = seq!['-', '-', '-', '\n'] + fm + closing() + seq!['\n'] + b;
    assert(old[0] == '-');
    assert(trim_start(old) == old);
    assert(old.subrange(0, 3) =~= dashes());
    let nf = seq!['\n'] + fm;
    let rest = old.subrange(3, old.len() as int);
    assert(rest =~= nf + closing() + (seq!['\n'] + b));
    lemma_first_closing(nf, seq!['\n'] + b);
    let e: int = nf.len() as int;
    let after = rest.subrange(e + 4, rest.len() as int);
    assert(after =~= seq!['\n'] + b);
    assert(after[0] == '\n');
    assert(line_end(after) == 0);
    assert(after.subrange(1, after.len() as int) =~= b);
}

/// Each BPMN element tag names its own element kind in a frontmatter
/// `type` line, and no other text names a kind.
pub proof fn law_frontmatter_type_names(t: Seq<char>)
    ensures
        kind_of_type("bpmn:startEvent"@) == Some(ElementKind::StartEvent),
        kind_of_type("bpmn:endEvent"@) == Some(ElementKind::EndEvent),
        kind_of_type("bpmn:task"@) == Some(ElementKind::Task),
        kind_of_type("bpmn:serviceTask"@) == Some(ElementKind::ServiceTask),
        kind_of_type("bpmn:scriptTask"@) == Some(ElementKind::ScriptTask),
        kind_of_type("bpmn:exclusiveGateway"@) == Some(ElementKind::ExclusiveGateway),
        kind_of_type("bpmn:parallelGateway"@) == Some(ElementKind::ParallelGateway),
        kind_of_type("bpmn:sequenceFlow"@) == Some(ElementKind::SequenceFlow),
        kind_of_type(t) is Some ==> (t == "bpmn:startEvent"@ || t == "bpmn:endEvent"@ || t == "bpmn:task"@ || t == "bpmn:serviceTask"@ || t == "bpmn:scriptTask"@ || t == "bpmn:exclusiveGateway"@ || t == "bpmn:parallelGateway"@ || t == "bpmn:sequenceFlow"@),
{
    reveal_strlit("bpmn:startEvent");
    reveal_strlit("bpmn:endEvent");
    reveal_strlit("bpmn:task");
    reveal_strlit("bpmn:serviceTask");
    reveal_strlit("bpmn:scriptTask");
    reveal_strlit("bpmn:exclusiveGateway");
    reveal_strlit("bpmn:parallelGateway");
    reveal_strlit("bpmn:sequenceFlow");
    assert("bpmn:endEvent"@.len() != "bpmn:startEvent"@.len());
    assert("bpmn:task"@.len() != "bpmn:startEvent"@.len());
    assert("bpmn:task"@.len() != "bpmn:endEvent"@.len());
    assert("bpmn:serviceTask"@.len() != "bpmn:startEvent"@.len());
    assert("bpmn:serviceTask"@.len() != "bpmn:endEvent"@.len());
    assert("bpmn:serviceTask"@.len() != "bpmn:task"@.len());
    assert("bpmn:scriptTask"@[6] != "bpmn:startEvent"@[6]);
    assert("bpmn:scriptTask"@.len() != "bpmn:endEvent"@.len());
    assert("bpmn:scriptTask"@.len() != "bpmn:task"@.len());
    assert("bpmn:scriptTask"@.len() != "bpmn:serviceTask"@.len());
    assert("bpmn:exclusiveGateway"@.len() != "bpmn:startEvent"@.len());
    assert("bpmn:exclusiveGateway"@.len() != "bpmn:endEvent"@.len());
    assert("bpmn:exclusiveGateway"@.len() != "bpmn:task"@.len());
    assert("bpmn:exclusiveGateway"@.len() != "bpmn:serviceTask"@.len());
    assert("bpmn:exclusiveGateway"@.len() != "bpmn:scriptTask"@.len());
    assert("bpmn:parallelGateway"@.len() != "bpmn:startEvent"@.len());
    assert("bpmn:parallelGateway"@.len() != "bpmn:endEvent"@.len());
    assert("bpmn:parallelGateway"@.len() != "bpmn:task"@.len());
    assert("bpmn:parallelGateway"@.len() != "bpmn:serviceTask"@.len());
    assert("bpmn:parallelGateway"@.len() != "bpmn:scriptTask"@.len());
    assert("bpmn:parallelGateway"@.len() != "bpmn:exclusiveGateway"@.len());
    assert("bpmn:sequenceFlow"@.len() != "bpmn:startEvent"@.len());
    assert("bpmn:sequenceFlow"@.len() != "bpmn:endEvent"@.len());
    assert("bpmn:sequenceFlow"@.len() != "bpmn:task"@.len());
    assert("bpmn:sequenceFlow"@.len() != "bpmn:serviceTask"@.len());
    assert("bpmn:sequenceFlow"@.len() != "bpmn:scriptTask"@.len());
    assert("bpmn:sequenceFlow"@.len() != "bpmn:exclusiveGateway"@.len());
    assert("bpmn:sequenceFlow"@.len() != "bpmn:parallelGateway"@.len());
}

} // verus!
