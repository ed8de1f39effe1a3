//! JPEG files: the EXIF segment is located and decoded.
use crate::parser::exif::error::ExifError;
use crate::parser::exif::segment::spec_exif_segment;
use crate::parser::exif::ExifSegment;
use crate::parser::{FileParser, ParseError};
use vstd::prelude::*;

verus! {

/// Errors of the JPEG parser.
#[derive(Debug)]
pub enum JpegError {
    /// The file could not be read.
    Io(std::io::Error),
    /// The EXIF segment could not be decoded.
    Exif(ExifError),
    Other(String),
}

/// Metadata of a JPEG file.
#[derive(Debug)]
pub struct Meta;

/// The JPEG parser.
pub struct Parser;

impl FileParser for Parser {
    type Output = Meta;

    /// Decodes the EXIF segment of the file.  Turning the segment into
    /// metadata is not implemented, so a file whose segment decodes is
    /// reported as a file of the wrong type.
    fn parse(path: &str, contents: Result<Vec<u8>, std::io::Error>) -> (r: Result<Meta, ParseError>)
        ensures
            match contents {
                Err(e) => r == Err::<Meta, ParseError>(ParseError::Jpeg(JpegError::Io(e))),
                Ok(data) => match spec_exif_segment(data@) {
                    Err(e) => r == Err::<Meta, ParseError>(ParseError::Jpeg(JpegError::Exif(e))),
                    Ok(_) => r matches Err(ParseError::WrongType(p)) && p@ == path@,
                },
            },
    {
        let file_data = match contents {
            Ok(d) => d,
            Err(e) => return Err(ParseError::Jpeg(JpegError::Io(e))),
        };
        match ExifSegment::try_from(file_data.as_slice()) {
            Err(e) => Err(ParseError::Jpeg(JpegError::Exif(e))),
            Ok(_exif) => Err(ParseError::WrongType(path.to_owned())),
        }
    }
}

} // verus!
