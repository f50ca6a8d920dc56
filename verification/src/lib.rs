//! Scaffolding for data-science project layouts.
//!
//! The library holds the logic of the `geoff` command-line tool: classifying
//! filesystem failures into user-facing messages, substituting name
//! placeholders in document templates, selecting metadata templates, and
//! building the tree summaries that the tool prints. Every function here is
//! verified; the filesystem calls themselves live in the thin binary around
//! the library.

pub mod add_command;
pub mod create_command;
pub mod paths;
pub mod placeholders;
pub mod pleasant_error;
pub mod templates;
pub mod tree;
