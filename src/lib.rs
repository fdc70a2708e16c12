//! Appraisal of third-party dependencies: the facts gathered about each
//! dependency, the policies that score them, and the risk that follows.
//!
//! Scores and points are whole numbers of hundredths of a point, times are
//! Unix seconds, and reading files, networks and clocks is left to callers,
//! which pass the results in.

pub mod text;
pub mod list;
pub mod version;
pub mod metric;
pub mod dependency;
pub mod provider_result;
pub mod crate_spec;
pub mod crate_ref;
pub mod advisories;
pub mod facts;
pub mod policy;
pub mod config;
pub mod calculator;
pub mod ranking;
pub mod appraisal;
pub mod aggregate;
pub mod cache;
pub mod progress;
pub mod tracker;
pub mod git;
pub mod registry;
pub mod table;
pub mod row_iter;
pub mod hosting;
