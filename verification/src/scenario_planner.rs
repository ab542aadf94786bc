//! From the text of a pipeline to its stack of stages.

pub mod fromstr;
pub mod grammar;
pub mod laws;
pub mod types;
