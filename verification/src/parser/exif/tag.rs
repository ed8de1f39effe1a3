//! TIFF/EXIF tag data types and IFD entries.
use crate::parser::exif::error::ExifError;
use vstd::prelude::*;

verus! {

/// The data types that a TIFF/EXIF tag value can have.
///
/// - Byte (1): an 8-bit unsigned integer.
/// - Ascii (2): an ASCII string (null-terminated).
/// - Short (3): a 16-bit unsigned integer.
/// - Long (4): a 32-bit unsigned integer.
/// - Rational (5): two 32-bit unsigned integers (numerator/denominator).
/// - Undefined (7): an 8-bit byte of unspecified meaning.
/// - Slong (9): a 32-bit signed integer.
/// - Srational (10): two 32-bit signed integers.
#[derive(Debug, PartialEq, Eq, Clone, Copy)]
pub enum TagType {
    Byte,
    Ascii,
    Short,
    Long,
    Rational,
    Undefined,
    Slong,
    Srational,
}

/// The data type that a TIFF type code denotes, if any.
pub open spec fn spec_tag_type(value: u16) -> Option<TagType> {
    if value == 1 {
        Some(TagType::Byte)
    } else if value == 2 {
        Some(TagType::Ascii)
    } else if value == 3 {
        Some(TagType::Short)
    } else if value == 4 {
        Some(TagType::Long)
    } else if value == 5 {
        Some(TagType::Rational)
    } else if value == 7 {
        Some(TagType::Undefined)
    } else if value == 9 {
        Some(TagType::Slong)
    } else if value == 10 {
        Some(TagType::Srational)
    } else {
        None
    }
}

/// The size in bytes of one element of a data type.
pub open spec fn spec_tag_size(t: TagType) -> nat {
    match t {
        TagType::Byte | TagType::Ascii | TagType::Undefined => 1,
        TagType::Short => 2,
        TagType::Long | TagType::Slong => 4,
        TagType::Rational | TagType::Srational => 8,
    }
}

impl TagType {
    /// Converts a raw TIFF type code into a data type; an unknown code gives
    /// `ExifError::UnknownIfdTag` carrying the code.
    pub fn try_from(value: u16) -> (r: Result<TagType, ExifError>)
        ensures
            match spec_tag_type(value) {
                Some(t) => r == Ok::<TagType, ExifError>(t),
                None => r == Err::<TagType, ExifError>(ExifError::UnknownIfdTag(value)),
            },
    {
        match value {
            1 => Ok(TagType::Byte),
            2 => Ok(TagType::Ascii),
            3 => Ok(TagType::Short),
            4 => Ok(TagType::Long),
            5 => Ok(TagType::Rational),
            7 => Ok(TagType::Undefined),
            9 => Ok(TagType::Slong),
            10 => Ok(TagType::Srational),
            val => Err(ExifError::UnknownIfdTag(val)),
        }
    }

    /// Returns the size in bytes of a single element of this type:
    /// 1 for BYTE, ASCII and UNDEFINED, 2 for SHORT, 4 for LONG and SLONG,
    /// 8 for RATIONAL and SRATIONAL.
    pub fn size(&self) -> (r: usize)
        ensures
            r == spec_tag_size(*self),
    {
        match self {
            TagType::Byte => 1,
            TagType::Ascii => 1,
            TagType::Short => 2,
            TagType::Long => 4,
            TagType::Rational => 8,
            TagType::Undefined => 1,
            TagType::Slong => 4,
            TagType::Srational => 8,
        }
    }
}

/// One entry of an image file directory: its two identifier bytes as stored,
/// its data type, and the bytes read as its value.
#[derive(Debug, PartialEq, Eq, Clone)]
pub struct Tag {
    pub id: [u8; 2],
    pub kind: TagType,
    pub value: Vec<u8>,
}

} // verus!
