//! EXIF (APP1) segment parsing.
pub mod byte_order;
pub mod error;
pub mod segment;
pub mod tag;

pub use byte_order::{ByteOrder, ByteOrderError};
pub use segment::ExifSegment;
pub use tag::{Tag, TagType};
