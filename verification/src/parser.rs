//! Parsers for the media and sidecar formats.
pub mod exif;
pub mod heic;
pub mod jpeg;
pub mod json;
pub mod tiff;

use vstd::prelude::*;

verus! {

/// Every error that one of the parsers can report.
#[derive(Debug)]
pub enum ParseError {
    Json(json::JsonError),
    Jpeg(jpeg::JpegError),
    Heic(heic::HeicError),
    Tiff(tiff::TiffError),
    /// The parser was handed a file of a type it does not handle; carries the path.
    WrongType(String),
}

/// A parser of one file format.
///
/// `parse` takes the path of the file and what reading the file gave; a
/// parser that does not look at the contents ignores them.
pub trait FileParser {
    type Output;

    fn parse(path: &str, contents: Result<Vec<u8>, std::io::Error>) -> (r: Result<
        Self::Output,
        ParseError,
    >);
}

/// The metadata read from a media file, by format.
#[derive(Debug)]
pub enum MediaMeta {
    Jpeg(jpeg::Meta),
    Tiff(tiff::Meta),
    Heic(heic::Meta),
}

} // verus!
