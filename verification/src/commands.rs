//! The pure parts of the command-line commands: validation rules and the
//! MDX files the `import` command writes.

pub mod validate;
pub mod import;
pub mod laws;
