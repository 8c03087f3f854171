# detent

Workflow processes in a BPMN 2.0 subset, authored as one MDX file per flow
element and compiled to BPMN XML, with the logic verified by Verus.

- `src/domain/` — standard-neutral process model and its graph: lookups,
  successors and predecessors, reachability, and graph validation (missing
  start/end events, dangling references, duplicate ids, unreachable nodes,
  dead ends), with laws relating them.
- `src/bpmn/` — the BPMN document model, its flow-node view and graph, and
  XSD validation errors.
- `src/graph_validation.rs` — BPMN process to domain process.
- `src/compiler/` — MDX framing (frontmatter and `type:` line) and the
  compilation of MDX element files into one BPMN process, with its laws.
- `src/transpiler/` — the BPMN document with its diagram section, the import
  into MDX files, and the XML text adjustments around parsing and writing.
- `src/commands/` — validation rules and the files of the `import` command.
- `src/patterns.rs` — regular-expression rewriting through the `regex` crate.
- `app/` — the command-line program: file I/O, XML and YAML (de)serialization.
