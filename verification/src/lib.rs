//! Workflow process models (BPMN subset), their graph checks, and the
//! MDX <-> BPMN transpilation logic.

pub mod bpmn;
pub mod commands;
pub mod compiler;
pub mod domain;
pub mod graph_validation;
pub mod patterns;
pub mod text;
pub mod transpiler;
