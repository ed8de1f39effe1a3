//! Internal workflows: media detection and the decisions of a directory scan.
pub mod media;
pub mod scan;

use crate::engine::scan::ScanError;
use vstd::prelude::*;

verus! {

/// Errors of the scanning engine.
#[derive(Debug)]
pub enum EngineError {
    /// A file system operation failed.
    Io(std::io::Error),
    /// A media file or its sidecar could not be handled.
    Scan(ScanError),
}

} // verus!
