//! BPMN 2.0 document model and the graph view over a BPMN process.

pub mod graph;
pub mod types;
pub mod xsd;
