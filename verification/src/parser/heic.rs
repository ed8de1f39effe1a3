//! HEIC files: recognised, not decoded yet.
use crate::parser::{FileParser, ParseError};
use vstd::prelude::*;

verus! {

/// Errors of the HEIC parser.
#[derive(Debug)]
pub enum HeicError {
    Io(std::io::Error),
}

/// Metadata of a HEIC file.
#[derive(Debug)]
pub struct Meta;

/// The HEIC parser.
pub struct Parser;

impl FileParser for Parser {
    type Output = Meta;

    /// HEIC decoding is not implemented: every HEIC file is reported as a
    /// file of the wrong type, whatever its contents.
    fn parse(path: &str, contents: Result<Vec<u8>, std::io::Error>) -> (r: Result<Meta, ParseError>)
        ensures
            r matches Err(ParseError::WrongType(p)) && p@ == path@,
    {
        Err(ParseError::WrongType(path.to_owned()))
    }
}

} // verus!
