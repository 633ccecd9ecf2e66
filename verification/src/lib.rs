//! Converts rich-text delta documents (a JSON-encoded list of insert
//! operations with formatting attributes) into Markdown text.

pub mod delta;
pub mod json;
pub mod laws;
