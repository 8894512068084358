//! Checks that a software project follows a set of layout and configuration
//! standards, and records each outcome in a report.

pub mod checks;
pub mod config;
pub mod context;
pub mod detection;
pub mod models;
pub mod output;
pub mod pattern;
pub mod report;
pub mod string_map;
pub mod text;
