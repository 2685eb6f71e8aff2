pub mod ast;
pub mod comment;
pub mod constant;
pub mod diagnostic;
pub mod encoding;
pub mod engine;
pub mod error;
pub mod list;
pub mod location;
pub mod parser;
