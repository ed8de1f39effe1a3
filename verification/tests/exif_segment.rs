use metafix_core::parser::exif::error::ExifError;
use metafix_core::parser::exif::segment::calculate_length_from_bytes;
use metafix_core::parser::exif::{ByteOrder, ByteOrderError, ExifSegment, TagType};

/// A JPEG stream: SOI, then an APP1 segment holding a TIFF header in the
/// given byte order with one IFD0 entry, then EOI.
fn sample_jpeg(big_endian: bool, entry: [u8; 12], trailer: &[u8]) -> Vec<u8> {
    let mut d = vec![0xFF, 0xD8, 0xFF, 0xE1, 0x00, 0x00];
    d.extend_from_slice(b"Exif\0\0");
    if big_endian {
        d.extend_from_slice(&[b'M', b'M', 0x00, 0x2A, 0x00, 0x00, 0x00, 0x08]);
        d.extend_from_slice(&[0x00, 0x01]);
    } else {
        d.extend_from_slice(&[b'I', b'I', 0x2A, 0x00, 0x08, 0x00, 0x00, 0x00]);
        d.extend_from_slice(&[0x01, 0x00]);
    }
    d.extend_from_slice(&entry);
    d.extend_from_slice(&[0x00, 0x00, 0x00, 0x00]);
    d.extend_from_slice(trailer);
    d.extend_from_slice(&[0xFF, 0xD9]);
    // The standard APP1 length: from the length field to the end of the segment.
    let seg_len = d.len() - 6;
    d[4] = (seg_len >> 8) as u8;
    d[5] = (seg_len & 0xFF) as u8;
    d
}

/// Make (0x010F), ASCII, six characters at offset 26 from the TIFF header.
const MAKE_LE: [u8; 12] = [0x0F, 0x01, 0x02, 0x00, 0x06, 0x00, 0x00, 0x00, 0x1A, 0x00, 0x00, 0x00];

#[test]
fn little_endian_segment_with_offset_value() {
    let data = sample_jpeg(false, MAKE_LE, b"Canon\0");
    let seg = ExifSegment::try_from(&data).unwrap();
    assert_eq!(seg.start(), 6);
    assert_eq!(seg.tiff_start(), 12);
    assert_eq!(seg.len(), data.len() - 6);
    assert_eq!(seg.endian(), ByteOrder::LittleEndian);
    assert_eq!(seg.ifd0_offset(), 8);
    assert_eq!(seg.ifd0_start(), 20);
    assert_eq!(seg.tags_amount(), 1);
    let tags = seg.tags();
    assert_eq!(tags.len(), 1);
    assert_eq!(tags[0].id, [0x0F, 0x01]);
    assert_eq!(tags[0].kind, TagType::Ascii);
    // Six ASCII bytes at the stored offset.
    assert_eq!(tags[0].value, b"Canon\0".to_vec());
}

#[test]
fn big_endian_segment_with_inline_value() {
    // Orientation (0x0112), SHORT, count 1, value 6 stored inline.
    let entry = [0x01, 0x12, 0x00, 0x03, 0x00, 0x00, 0x00, 0x01, 0x00, 0x06, 0x00, 0x00];
    let data = sample_jpeg(true, entry, b"");
    let seg = ExifSegment::try_from(&data).unwrap();
    assert_eq!(seg.endian(), ByteOrder::BigEndian);
    assert_eq!(seg.tags_amount(), 1);
    let tags = seg.tags();
    assert_eq!(tags[0].id, [0x01, 0x12]);
    assert_eq!(tags[0].kind, TagType::Short);
    // The four-byte value field.
    assert_eq!(tags[0].value, vec![0x00, 0x06, 0x00, 0x00]);
}

#[test]
fn missing_marker_is_reported() {
    assert_eq!(ExifSegment::try_from(&[]).unwrap_err(), ExifError::MarkerNotFound(0xE1));
    assert_eq!(
        ExifSegment::try_from(&[0xFF, 0xD8, 0xFF, 0xDB, 0x00]).unwrap_err(),
        ExifError::MarkerNotFound(0xE1)
    );
}

#[test]
fn wrong_header_is_reported() {
    let mut data = sample_jpeg(false, MAKE_LE, b"Canon\0");
    data[6] = b'J';
    assert_eq!(ExifSegment::try_from(&data).unwrap_err(), ExifError::ExifStartNotFound);
}

#[test]
fn wrong_byte_order_is_reported() {
    let mut data = sample_jpeg(false, MAKE_LE, b"Canon\0");
    data[12] = b'X';
    data[13] = b'Y';
    assert_eq!(
        ExifSegment::try_from(&data).unwrap_err(),
        ExifError::Endian(ByteOrderError::WrongEndian(b'X', b'Y'))
    );
}

#[test]
fn wrong_signature_is_reported() {
    let mut data = sample_jpeg(false, MAKE_LE, b"Canon\0");
    data[14] = 0x2B;
    assert_eq!(ExifSegment::try_from(&data).unwrap_err(), ExifError::WrongSignature(0x002B));
}

#[test]
fn unknown_tag_type_is_reported() {
    let mut entry = MAKE_LE;
    entry[2] = 11;
    let data = sample_jpeg(false, entry, b"Canon\0");
    assert_eq!(ExifSegment::try_from(&data).unwrap_err(), ExifError::UnknownIfdTag(11));
}

#[test]
fn value_outside_data_is_reported() {
    let mut entry = MAKE_LE;
    entry[8] = 0xF0;
    let data = sample_jpeg(false, entry, b"Canon\0");
    assert_eq!(ExifSegment::try_from(&data).unwrap_err(), ExifError::SliceRead("Value"));
}

#[test]
fn truncated_header_is_reported() {
    // Marker, length, header, byte-order mark, and nothing more.
    let data = [0xFF, 0xE1, 0x00, 0x08, b'E', b'x', b'i', b'f', 0, 0, b'I', b'I'];
    assert_eq!(
        ExifSegment::try_from(&data).unwrap_err(),
        ExifError::SliceRead("Cannot read Endian bytes")
    );
    let data = [0xFF, 0xE1, 0x00, 0x08, b'E', b'x', b'i', b'f', 0, 0, b'I', b'I', 0x2A];
    assert_eq!(
        ExifSegment::try_from(&data).unwrap_err(),
        ExifError::SliceRead("Cannot read EXIF signature")
    );
}

#[test]
fn too_many_declared_tags_are_reported() {
    // Orientation, SHORT, inline; IFD0 declares two entries, the data ends
    // one byte after the first.
    let entry = [0x12, 0x01, 0x03, 0x00, 0x01, 0x00, 0x00, 0x00, 0x06, 0x00, 0x00, 0x00];
    let mut data = sample_jpeg(false, entry, b"");
    data[20] = 0x02;
    data.truncate(35);
    assert_eq!(ExifSegment::try_from(&data).unwrap_err(), ExifError::SliceRead("Tag ID"));
    // With the whole stream, the second entry reads the zero next-IFD pointer
    // as its identifier and type.
    let mut data = sample_jpeg(false, entry, b"");
    data[20] = 0x02;
    assert_eq!(ExifSegment::try_from(&data).unwrap_err(), ExifError::UnknownIfdTag(0));
}

#[test]
fn segment_running_past_the_end_is_reported() {
    assert_eq!(ExifSegment::try_from(&[0xFF, 0xE1]).unwrap_err(), ExifError::SliceRead("Segment length"));
    assert_eq!(
        ExifSegment::try_from(&[0xFF, 0xE1, 0x00, 0x10, b'E', b'x']).unwrap_err(),
        ExifError::SliceRead("Exif header")
    );
    let mut data = sample_jpeg(false, MAKE_LE, b"Canon\0");
    data[4] = 0xFF;
    assert_eq!(ExifSegment::try_from(&data).unwrap_err(), ExifError::SliceRead("Segment data"));
    // A short stream whose header is wrong reports the header first.
    let data = [0xFF, 0xE1, 0x00, 0x10, b'J', b'F', b'I', b'F', 0, 0];
    assert_eq!(ExifSegment::try_from(&data).unwrap_err(), ExifError::ExifStartNotFound);
}

#[test]
fn only_the_first_marker_is_examined() {
    let mut data = vec![0xFF, 0xE1, 0x00, 0x08, b'J', b'F', b'I', b'F', 0, 0];
    data.extend(sample_jpeg(false, MAKE_LE, b"Canon\0"));
    assert_eq!(ExifSegment::try_from(&data).unwrap_err(), ExifError::ExifStartNotFound);
}

#[test]
fn byte_order_names() {
    assert_eq!(ByteOrder::BigEndian.name(), "Big");
    assert_eq!(ByteOrder::LittleEndian.name(), "Little");
}

#[test]
fn byte_order_detection() {
    assert_eq!(ByteOrder::try_from(b"II*"), Ok(ByteOrder::LittleEndian));
    assert_eq!(ByteOrder::try_from(b"MM"), Ok(ByteOrder::BigEndian));
    assert_eq!(ByteOrder::try_from(b"IM"), Err(ByteOrderError::WrongEndian(b'I', b'M')));
    assert_eq!(ByteOrder::try_from(b"I"), Err(ByteOrderError::NoEndian));
}

#[test]
fn byte_order_reads_integers() {
    let bytes = [0x12, 0x34, 0x56, 0x78, 0x9A];
    assert_eq!(ByteOrder::BigEndian.read_u16(&bytes), Ok(0x1234));
    assert_eq!(ByteOrder::LittleEndian.read_u16(&bytes), Ok(0x3412));
    assert_eq!(ByteOrder::BigEndian.read_u32(&bytes), Ok(0x1234_5678));
    assert_eq!(ByteOrder::LittleEndian.read_u32(&bytes), Ok(0x7856_3412));
    assert_eq!(ByteOrder::BigEndian.read_u16(&bytes[..1]), Err(ByteOrderError::NotEnoughBytes));
    assert_eq!(ByteOrder::LittleEndian.read_u32(&bytes[..3]), Err(ByteOrderError::NotEnoughBytes));
}

#[test]
fn tag_types_and_sizes() {
    let known = [
        (1, TagType::Byte, 1),
        (2, TagType::Ascii, 1),
        (3, TagType::Short, 2),
        (4, TagType::Long, 4),
        (5, TagType::Rational, 8),
        (7, TagType::Undefined, 1),
        (9, TagType::Slong, 4),
        (10, TagType::Srational, 8),
    ];
    for (code, kind, size) in known {
        assert_eq!(TagType::try_from(code), Ok(kind));
        assert_eq!(kind.size(), size);
    }
    for code in [0u16, 6, 8, 11, 0xFFFF] {
        assert_eq!(TagType::try_from(code), Err(ExifError::UnknownIfdTag(code)));
    }
}

#[test]
fn segment_length_is_big_endian() {
    assert_eq!(calculate_length_from_bytes([0x01, 0x02]), 0x0102);
    assert_eq!(calculate_length_from_bytes([0xFF, 0xFF]), 0xFFFF);
}

#[test]
fn big_endian_make_tag() {
    let data = [
        0xFF, 0xE1, 0x00, 0x28, 0x45, 0x78, 0x69, 0x66, 0x00, 0x00, 0x4D, 0x4D, 0x00, 0x2A, 0x00,
        0x00, 0x00, 0x08, 0x00, 0x01, 0x01, 0x0F, 0x00, 0x02, 0x00, 0x00, 0x00, 0x06, 0x00, 0x00,
        0x00, 0x1A, 0x00, 0x00, 0x00, 0x00, 0x43, 0x61, 0x6E, 0x6F, 0x6E, 0x00, 0xFF, 0xD9,
    ];
    let seg = ExifSegment::try_from(&data).unwrap();
    assert_eq!(seg.endian(), ByteOrder::BigEndian);
    assert_eq!(seg.start(), 4);
    assert_eq!(seg.tiff_start(), 10);
    assert_eq!(seg.len(), 40);
    assert_eq!(seg.ifd0_offset(), 8);
    assert_eq!(seg.tags_amount(), 1);
    assert_eq!(seg.tags()[0].id, [0x01, 0x0F]);
    assert_eq!(seg.tags()[0].kind, TagType::Ascii);
    assert_eq!(seg.tags()[0].value, b"Canon\0".to_vec());
}

#[test]
fn rational_value_is_eight_bytes() {
    // XResolution (0x011A), RATIONAL, count 1, at offset 26: 72/1.
    let entry = [0x1A, 0x01, 0x05, 0x00, 0x01, 0x00, 0x00, 0x00, 0x1A, 0x00, 0x00, 0x00];
    let data = sample_jpeg(false, entry, &[72, 0, 0, 0, 1, 0, 0, 0]);
    let seg = ExifSegment::try_from(&data).unwrap();
    assert_eq!(seg.tags()[0].kind, TagType::Rational);
    assert_eq!(seg.tags()[0].value, vec![72, 0, 0, 0, 1, 0, 0, 0]);
    // Cut inside the value: the value no longer fits.
    let entry = [0x1A, 0x01, 0x05, 0x00, 0x02, 0x00, 0x00, 0x00, 0x1A, 0x00, 0x00, 0x00];
    let data = sample_jpeg(false, entry, &[72, 0, 0, 0, 1, 0, 0, 0]);
    assert_eq!(ExifSegment::try_from(&data).unwrap_err(), ExifError::SliceRead("Value"));
}
