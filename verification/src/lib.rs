//! Metadata discovery for photo libraries: EXIF parsing, media detection and
//! the bookkeeping of a directory scan.
pub mod api;
pub mod engine;
pub mod foreign_types;
pub mod parser;
pub mod paths;
pub mod text;

pub use api::error::Error;
pub use api::scan::{FileEntry, ScanReport, ScanStats};
