//! Standard-neutral workflow model: flow elements of a process and the
//! graph traversal and structural validation over them.

pub mod bpmn;
pub mod process_graph;
pub mod graph_laws;
