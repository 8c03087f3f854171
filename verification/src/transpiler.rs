//! BPMN <-> MDX transpilation: BPMN documents with their diagram section,
//! their import into one MDX file per flow element, and the text-level
//! adjustments made around XML parsing and serialization.

pub mod types;
pub mod import;
pub mod adapter;
pub mod laws;
