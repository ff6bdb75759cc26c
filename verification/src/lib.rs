//! Typed declarations for SQL embedded in TypeScript sources.
//!
//! The library finds every SQL text wrapped in the marker call of a parsed
//! module, maps the shape a database reports for each query into TypeScript
//! types, renders the declaration text, and plans which output files a pass
//! writes and removes.

pub mod ast;
pub mod config;
pub mod database;
pub mod opt;
pub mod parse_source;
pub mod run;
pub mod scan_folder;
pub mod sql_texts;
pub mod text;
pub mod ts;
