//! Compilation of MDX element files into a BPMN document.

pub mod compile;
pub mod mdx;
pub mod laws;
