//! TIFF files: recognised, not decoded yet.
use crate::parser::{FileParser, ParseError};
use vstd::prelude::*;

verus! {

/// Errors of the TIFF parser.
#[derive(Debug)]
pub enum TiffError {
    Io(std::io::Error),
    Other(String),
}

/// Metadata of a TIFF file.
#[derive(Debug)]
pub struct Meta;

/// The TIFF parser.
pub struct Parser;

impl FileParser for Parser {
    type Output = Meta;

    /// TIFF decoding is not implemented: every TIFF file is reported as a
    /// file of the wrong type, whatever its contents.
    fn parse(path: &str, contents: Result<Vec<u8>, std::io::Error>) -> (r: Result<Meta, ParseError>)
        ensures
            r matches Err(ParseError::WrongType(p)) && p@ == path@,
    {
        Err(ParseError::WrongType(path.to_owned()))
    }
}

} // verus!
