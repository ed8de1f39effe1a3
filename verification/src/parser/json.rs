//! Errors of the Google Takeout sidecar JSON reader.
use vstd::prelude::*;

verus! {

/// Why a supplementary JSON file could not be read.
#[derive(Debug)]
pub enum JsonError {
    /// The file could not be read.
    Io(std::io::Error),
    /// The file is not a valid Takeout sidecar.
    Serde(serde_json::Error),
}

} // verus!
