//! Splits a line-oriented SQL dump into one file per database object.
//!
//! A dump announces each object with a marker comment that gives the
//! object's name, type, schema and owner. The library holds the decisions
//! that follow from these markers: how a line is classified, what a marker
//! describes, where the text after it belongs, and the line-by-line engine
//! that ties these together.
//!
//! The library performs no I/O. The engine hands out [`routing::Action`]
//! values for its caller to carry out, and [`archive::Archive`] carries them
//! out in memory.

pub mod archive;
pub mod catalog;
pub mod classify;
pub mod engine;
pub mod grammar;
pub mod marker;
mod path;
pub mod pattern;
pub mod routing;
pub mod run;
pub mod text;
pub mod types;

pub use classify::identify_line;
pub use marker::{extract_function_name, identify_marker, is_polymorph};
pub use routing::{create_entity, create_schema_entity};
