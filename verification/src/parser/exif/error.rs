//! Errors of the EXIF segment parser.
use crate::parser::exif::byte_order::ByteOrderError;
use vstd::prelude::*;

verus! {

/// Why an EXIF segment could not be parsed.
#[derive(Debug, PartialEq, Eq, Clone, Copy)]
pub enum ExifError {
    /// No `0xFF <marker>` pair was found; carries the marker byte looked for.
    MarkerNotFound(u8),
    /// The APP1 segment does not start with `Exif\0\0`.
    ExifStartNotFound,
    /// The TIFF byte-order mark was invalid.
    Endian(ByteOrderError),
    /// The TIFF signature was not `0x002A`; carries the value read.
    WrongSignature(u16),
    /// An IFD entry named a data type outside the TIFF set; carries the type code.
    UnknownIfdTag(u16),
    /// Any other failure.
    Other(&'static str),
    /// A field lay (partly) outside the data; names the field.
    SliceRead(&'static str),
}

} // verus!
