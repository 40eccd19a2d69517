//! A catalog of named, runnable lesson examples, a runner that executes them
//! against their declared expectations, and a reporter that summarises a run.
//!
//! The `lessons` module holds the examples of the course itself: small
//! functions, one file for each topic, that an application registers as
//! units.

pub mod catalog;
pub mod lessons;
pub mod names;
pub mod reporter;
pub mod runner;
pub mod selection;
pub mod std_specs;
pub mod text;
