//! The concrete syntax tree: every token keeps its comments and its place.
pub mod comments;
pub mod base;
mod sealed;
pub mod literals;
pub mod types;
pub mod patterns;
pub mod expressions;
pub mod imports;
pub mod top;
pub mod pretty;
pub mod plain;
