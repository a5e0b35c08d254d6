//! Smoke tests for the infrastructure of the Rust project
//!
//! The checks confirm that the content delivery networks and redirects behind crates.io, the
//! release archives and rustup behave as expected. This library holds what the checks decide:
//! which requests to make, what each response means, how results add up over groups and suites,
//! and how the report is ordered and rendered. Making the requests is left to the caller.

pub mod assertion;
pub mod cli;
pub mod environment;
pub mod http_client;
pub mod order;
pub mod report;
pub mod test;
pub mod text;
pub mod verdicts;

// Test suites
pub mod crates;
pub mod releases;
pub mod rustup;
