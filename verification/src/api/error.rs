//! The combined error type of the library.
use crate::engine::EngineError;
use crate::parser::ParseError;
use vstd::prelude::*;

verus! {

/// Every error of the library, by the part that raised it.
#[derive(Debug)]
pub enum Error {
    /// Errors of the scanning engine.
    Engine(EngineError),
    /// Errors of the parsers.
    Parse(ParseError),
}

} // verus!
