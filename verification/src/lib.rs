//! Generator for configuration-option source artifacts.
//!
//! The library parses a semi-structured text document that declares typed,
//! sectioned configuration options, and renders the declaration and loader
//! source artifacts for those options.  Parsing and rendering are pure:
//! reading the document and writing the artifacts are left to the caller.

pub mod defs;
pub mod laws;
pub mod loader;
pub mod model;
pub mod parse;
pub mod scan;
pub mod text;
