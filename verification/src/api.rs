//! The public surface: the combined error type and the scan report.
pub mod error;
pub mod scan;
