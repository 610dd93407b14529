//! The lexer of the language and the reports it gives.
pub mod report;
pub mod tokens;
pub mod scanner;
pub mod lexer;
pub mod error_report;
pub mod comment_flow;
