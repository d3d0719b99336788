//! Staging of a task's outputs, which move from memory to a file past a size limit,
//! and a builder that accumulates the bytes of a new data value in memory or in a file.

pub mod builder;
pub mod output;
