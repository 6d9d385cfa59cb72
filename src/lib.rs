//! Trusted-content lookups for software packages: package-URL validation,
//! the trust rule, vulnerability merging, and the aggregation and batch
//! policies that turn collaborator answers into package records.

pub mod error;
pub mod purl;
pub mod trust;
pub mod vuln;
pub mod model;
pub mod package;
pub mod batch;
pub mod server;
