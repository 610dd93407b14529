//! The core language that the front end lowers programs to: its names,
//! records, types and terms.
pub mod common;
pub mod types;
pub mod terms;
