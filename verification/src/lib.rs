//! Content-conversion core of a small static-site build tool.
//!
//! Source files are categorised by their file extension alone; each category
//! has a converter that renders the file's contents for the output tree. The
//! dispatch rules, the rendering of each category and the error taxonomy live
//! here, fully specified; opening, reading and writing the actual files is the
//! surrounding program's business.

pub mod error;
pub mod paths;
pub mod processor;
pub mod startup;
