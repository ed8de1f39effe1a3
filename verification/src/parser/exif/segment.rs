//! Locating and decoding the EXIF APP1 segment of a JPEG byte stream.
use crate::parser::exif::byte_order::{
    ordered_value, spec_byte_order, ByteOrder,
};
use crate::parser::exif::error::ExifError;
use crate::parser::exif::tag::{spec_tag_size, spec_tag_type, Tag, TagType};
use vstd::prelude::*;
use vstd::slice::slice_to_vec;

verus! {

/// First byte of every JPEG segment marker.
pub const SEGMENT_START: u8 = 0xFF;

/// Second byte of the APP1 (EXIF) segment marker.
pub const EXIF_MARKER: u8 = 0xE1;

/// The TIFF signature that follows the byte-order mark.
pub const VALID_SIGNATURE: u16 = 0x002A;

/// Length in bytes of one IFD entry.
pub const EXIF_TAG_LEN: usize = 12;

/// The six bytes `Exif\0\0` that open an EXIF APP1 segment.
pub open spec fn exif_header() -> Seq<u8> {
    seq![0x45u8, 0x78u8, 0x69u8, 0x66u8, 0x00u8, 0x00u8]
}

/// Whether the APP1 marker pair `0xFF 0xE1` starts at position `p` of `d`.
pub open spec fn marker_at(d: Seq<u8>, p: int) -> bool {
    0 <= p && p + 1 < d.len() && d[p] == SEGMENT_START && d[p + 1] == EXIF_MARKER
}

/// The first position at or after `i` where the APP1 marker pair starts.
pub open spec fn marker_search(d: Seq<u8>, i: nat) -> Option<nat>
    decreases d.len() - i,
{
    if i + 1 >= d.len() {
        None
    } else if marker_at(d, i as int) {
        Some(i)
    } else {
        marker_search(d, i + 1)
    }
}

/// Whether `n` bytes starting at `a` lie inside `d`.
pub open spec fn fits(d: Seq<u8>, a: int, n: int) -> bool {
    0 <= a && a + n <= d.len()
}

/// The integer of `n` bytes at position `a` of `d`, in `order`.
pub open spec fn read_at(order: ByteOrder, d: Seq<u8>, a: int, n: nat) -> nat {
    ordered_value(order, d.subrange(a, a + n), n)
}

/// The abstract value of one IFD entry.
pub struct TagModel {
    pub id: Seq<u8>,
    pub kind: TagType,
    pub value: Seq<u8>,
}

/// The abstract value of a parsed EXIF segment: all positions are offsets
/// into the whole input.
pub struct ExifSegmentModel {
    /// Where the `Exif\0\0` header starts (after the marker and the length field).
    pub start: nat,
    /// Where the TIFF header starts (after `Exif\0\0`).
    pub tiff_start: nat,
    /// The segment length stored in the two bytes after the marker.
    pub len: nat,
    pub endian: ByteOrder,
    /// Offset of IFD0 from the TIFF header, as stored.
    pub ifd0_offset: nat,
    /// Position of IFD0 in the input.
    pub ifd0_start: nat,
    /// Number of entries in IFD0, as stored.
    pub tags_amount: nat,
    pub tags: Seq<TagModel>,
}

/// Decodes the IFD entry that starts at `ts`, with the TIFF header at `t`.
///
/// The value occupies `size * count` bytes, `size` being the size of one
/// element of the entry's type: when that is more than four bytes, they lie
/// at the stored offset from the TIFF header; otherwise the value is the
/// entry's four-byte value field itself.
pub open spec fn spec_parse_tag(d: Seq<u8>, order: ByteOrder, t: int, ts: int) -> Result<
    TagModel,
    ExifError,
> {
    if !fits(d, ts, 2) {
        Err(ExifError::SliceRead("Tag ID"))
    } else if !fits(d, ts + 2, 2) {
        Err(ExifError::SliceRead("Data Type"))
    } else {
        let code = read_at(order, d, ts + 2, 2) as u16;
        match spec_tag_type(code) {
            None => Err(ExifError::UnknownIfdTag(code)),
            Some(kind) => if !fits(d, ts + 4, 4) {
                Err(ExifError::SliceRead("Count"))
            } else {
                let count = read_at(order, d, ts + 4, 4);
                if spec_tag_size(kind) * count > 4 {
                    if !fits(d, ts + 8, 4) {
                        Err(ExifError::SliceRead("Value Offset"))
                    } else {
                        let vs = t + read_at(order, d, ts + 8, 4);
                        let m = spec_tag_size(kind) * count;
                        if !fits(d, vs, m as int) {
                            Err(ExifError::SliceRead("Value"))
                        } else {
                            Ok(TagModel { id: d.subrange(ts, ts + 2), kind, value: d.subrange(vs, vs + m) })
                        }
                    }
                } else if !fits(d, ts + 8, 4) {
                    Err(ExifError::SliceRead("Value Short"))
                } else {
                    Ok(TagModel { id: d.subrange(ts, ts + 2), kind, value: d.subrange(ts + 8, ts + 12) })
                }
            },
        }
    }
}

/// Decodes the first `n` IFD entries, which follow each other from `first`;
/// the first entry that fails gives the error.
pub open spec fn spec_parse_tags(d: Seq<u8>, order: ByteOrder, t: int, first: int, n: nat) -> Result<
    Seq<TagModel>,
    ExifError,
>
    decreases n,
{
    if n == 0 {
        Ok(Seq::empty())
    } else {
        match spec_parse_tags(d, order, t, first, (n - 1) as nat) {
            Err(e) => Err(e),
            Ok(tags) => match spec_parse_tag(d, order, t, first + 12 * (n - 1)) {
                Err(e) => Err(e),
                Ok(tag) => Ok(tags.push(tag)),
            },
        }
    }
}

/// What parsing the EXIF segment of the byte stream `d` gives: the segment,
/// or the first error met.  A field that lies (partly) past the end of `d`
/// gives `ExifError::SliceRead` naming the field.
pub open spec fn spec_exif_segment(d: Seq<u8>) -> Result<ExifSegmentModel, ExifError> {
    match marker_search(d, 0) {
        None => Err(ExifError::MarkerNotFound(EXIF_MARKER)),
        Some(p0) => {
        let p = p0 as int;
        if p + 4 > d.len() {
            Err(ExifError::SliceRead("Segment length"))
        } else if p + 10 > d.len() {
            Err(ExifError::SliceRead("Exif header"))
        } else if d.subrange(p + 4, p + 10) != exif_header() {
            Err(ExifError::ExifStartNotFound)
        } else {
            let seg_len = d[p + 2] as nat * 256 + d[p + 3] as nat;
            let t: int = p + 10;
            if !fits(d, t, 3) {
                Err(ExifError::SliceRead("Cannot read Endian bytes"))
            } else {
                match spec_byte_order(d.subrange(t as int, t + 3)) {
                    Err(e) => Err(ExifError::Endian(e)),
                    Ok(order) => if !fits(d, t + 2, 2) {
                        Err(ExifError::SliceRead("Cannot read EXIF signature"))
                    } else if read_at(order, d, t + 2, 2) != VALID_SIGNATURE {
                        Err(ExifError::WrongSignature(read_at(order, d, t + 2, 2) as u16))
                    } else if !fits(d, t + 4, 4) {
                        Err(ExifError::SliceRead("Cannot read EXIF IFD0 offset"))
                    } else {
                        let o = read_at(order, d, t + 4, 4) as int;
                        if !fits(d, t + o, 2) {
                            Err(ExifError::SliceRead("Failed to read Tags amount"))
                        } else {
                            let n = read_at(order, d, t + o, 2);
                            match spec_parse_tags(d, order, t, t + o + 2, n) {
                                Err(e) => Err(e),
                                Ok(tags) => if p + 4 + seg_len > d.len() {
                                    Err(ExifError::SliceRead("Segment data"))
                                } else {
                                    Ok(
                                            ExifSegmentModel {
                                                start: (p + 4) as nat,
                                                tiff_start: t as nat,
                                                len: seg_len,
                                                endian: order,
                                                ifd0_offset: o as nat,
                                                ifd0_start: (t + o) as nat,
                                                tags_amount: n,
                                                tags,
                                            },
                                        )
                                },
                            }
                        }
                    },
                }
            }
        }
        },
    }
}

/// The fixed part of an EXIF segment and the entries of its IFD0.
#[derive(Debug)]
pub struct ExifSegment {
    start: usize,
    tiff_start: usize,
    len: usize,
    endian: ByteOrder,
    ifd0_offset: usize,
    ifd0_start: usize,
    tags_amount: usize,
    tags: Vec<Tag>,
}

impl View for Tag {
    type V = TagModel;

    open spec fn view(&self) -> TagModel {
        TagModel { id: self.id@, kind: self.kind, value: self.value@ }
    }
}

impl View for ExifSegment {
    type V = ExifSegmentModel;

    closed spec fn view(&self) -> ExifSegmentModel {
        ExifSegmentModel {
            start: self.start as nat,
            tiff_start: self.tiff_start as nat,
            len: self.len as nat,
            endian: self.endian,
            ifd0_offset: self.ifd0_offset as nat,
            ifd0_start: self.ifd0_start as nat,
            tags_amount: self.tags_amount as nat,
            tags: self.tags@.map_values(|tag: Tag| tag@),
        }
    }
}

/// Whether `n` bytes starting at `start` lie inside a buffer of `len` bytes.
fn region_fits(len: usize, start: usize, n: usize) -> (r: bool)
    ensures
        r == (start + n <= len),
{
    start <= len && n <= len - start
}

/// Position of the first APP1 marker pair in `data`.
fn find_marker(data: &[u8]) -> (r: Option<usize>)
    ensures
        match r {
            Some(p) => marker_search(data@, 0) == Some(p as nat),
            None => marker_search(data@, 0) is None,
        },
{
    let len = data.len();
    let mut i: usize = 0;
    while len > 0 && i < len - 1
        invariant
            len == data@.len(),
            i <= len,
            marker_search(data@, 0) == marker_search(data@, i as nat),
        decreases len - i,
    {
        if data[i] == SEGMENT_START && data[i + 1] == EXIF_MARKER {
            return Some(i);
        }
        i = i + 1;
    }
    None
}

/// Decodes the IFD entry that starts at `ts`, with the TIFF header at `t`.
fn parse_tag(data: &[u8], order: ByteOrder, t: usize, ts: usize) -> (r: Result<Tag, ExifError>)
    requires
        ts <= data@.len(),
        t <= data@.len(),
    ensures
        match spec_parse_tag(data@, order, t as int, ts as int) {
            Ok(m) => r matches Ok(tag) && tag@ == m,
            Err(e) => r == Err::<Tag, ExifError>(e),
        },
{
    let len = data.len();
    if !region_fits(len, ts, 2) {
        return Err(ExifError::SliceRead("Tag ID"));
    }
    let id: [u8; 2] = [data[ts], data[ts + 1]];
    if !region_fits(len, ts + 2, 2) {
        return Err(ExifError::SliceRead("Data Type"));
    }
    let code = match order.read_u16(&data[ts + 2..ts + 4]) {
        Ok(v) => v,
        Err(e) => return Err(ExifError::Endian(e)),
    };
    let kind = match TagType::try_from(code) {
        Ok(k) => k,
        Err(e) => return Err(e),
    };
    if !region_fits(len, ts + 4, 4) {
        return Err(ExifError::SliceRead("Count"));
    }
    let count = match order.read_u32(&data[ts + 4..ts + 8]) {
        Ok(v) => v,
        Err(e) => return Err(ExifError::Endian(e)),
    };
    proof {
        assert(id@ =~= data@.subrange(ts as int, ts + 2));
    }
    let size = kind.size() as u64;
    let count64 = count as u64;
    assert(size * count64 <= 8 * 0xffff_ffffu64) by (nonlinear_arith)
        requires
            size <= 8,
            count64 <= 0xffff_ffffu64,
    ;
    if size * count64 > 4 {
        if !region_fits(len, ts + 8, 4) {
            return Err(ExifError::SliceRead("Value Offset"));
        }
        let value_offset = match order.read_u32(&data[ts + 8..ts + 12]) {
            Ok(v) => v,
            Err(e) => return Err(ExifError::Endian(e)),
        };
        let vo = value_offset as usize;
        let m = size * count64;
        if vo > len - t || m > (len - t - vo) as u64 {
            return Err(ExifError::SliceRead("Value"));
        }
        let vs = t + vo;
        let value = slice_to_vec(&data[vs..vs + m as usize]);
        Ok(Tag { id, kind, value })
    } else {
        if !region_fits(len, ts + 8, 4) {
            return Err(ExifError::SliceRead("Value Short"));
        }
        let value = slice_to_vec(&data[ts + 8..ts + 12]);
        Ok(Tag { id, kind, value })
    }
}


/// The segment length stored big-endian in two bytes.
pub fn calculate_length_from_bytes(bytes: [u8; 2]) -> (r: usize)
    ensures
        r == bytes[0] as nat * 256 + bytes[1] as nat,
{
    (bytes[0] as usize) * 256 + (bytes[1] as usize)
}

/// Decodes the `n` IFD entries that follow each other from `first`.
fn parse_tags(data: &[u8], order: ByteOrder, t: usize, first: usize, n: usize) -> (r: Result<
    Vec<Tag>,
    ExifError,
>)
    requires
        t <= data@.len(),
        first <= data@.len(),
        n <= u16::MAX,
    ensures
        match spec_parse_tags(data@, order, t as int, first as int, n as nat) {
            Ok(ms) => r matches Ok(tags) && tags@.map_values(|tag: Tag| tag@) == ms,
            Err(e) => r == Err::<Vec<Tag>, ExifError>(e),
        },
{
    let len = data.len();
    let mut tags: Vec<Tag> = Vec::new();
    let mut i: usize = 0;
    while i < n
        invariant
            len == data@.len(),
            t <= len,
            first <= len,
            i <= n,
            n <= u16::MAX,
            spec_parse_tags(data@, order, t as int, first as int, i as nat) matches Ok(ms)
                && tags@.map_values(|tag: Tag| tag@) == ms,
        decreases n - i,
    {
        let off = i * EXIF_TAG_LEN;
        if off > len - first {
            proof {
                assert(spec_parse_tag(data@, order, t as int, first + 12 * i) == Err::<
                    TagModel,
                    ExifError,
                >(ExifError::SliceRead("Tag ID")));
                lemma_tags_error_persists(data@, order, t as int, first as int, (i + 1) as nat, n as nat);
            }
            return Err(ExifError::SliceRead("Tag ID"));
        }
        let ghost old_tags = tags@;
        match parse_tag(data, order, t, first + off) {
            Ok(tag) => {
                tags.push(tag);
                proof {
                    assert(tags@.map_values(|tag: Tag| tag@) =~= old_tags.map_values(
                        |tag: Tag| tag@,
                    ).push(tag@));
                }
            },
            Err(e) => {
                proof {
                    lemma_tags_error_persists(data@, order, t as int, first as int, (i + 1) as nat, n as nat);
                }
                return Err(e);
            },
        }
        i = i + 1;
    }
    Ok(tags)
}

/// Once an entry fails, decoding any longer run of entries fails the same way.
proof fn lemma_tags_error_persists(
    d: Seq<u8>,
    order: ByteOrder,
    t: int,
    first: int,
    k: nat,
    n: nat,
)
    requires
        k <= n,
        spec_parse_tags(d, order, t, first, k) is Err,
    ensures
        spec_parse_tags(d, order, t, first, n) == spec_parse_tags(d, order, t, first, k),
    decreases n - k,
{
    if k < n {
        lemma_tags_error_persists(d, order, t, first, k, (n - 1) as nat);
    }
}


/// Whether bytes `[a, a + 6)` of `data` are `Exif\0\0`.
fn has_exif_header(data: &[u8], a: usize) -> (r: bool)
    requires
        a + 6 <= data@.len(),
    ensures
        r == (data@.subrange(a as int, a + 6) == exif_header()),
{
    let ok = data[a] == 0x45 && data[a + 1] == 0x78 && data[a + 2] == 0x69 && data[a + 3] == 0x66
        && data[a + 4] == 0x00 && data[a + 5] == 0x00;
    proof {
        if ok {
            assert(data@.subrange(a as int, a + 6) =~= exif_header());
        } else {
            if data@.subrange(a as int, a + 6) == exif_header() {
                assert(data@.subrange(a as int, a + 6)[0] == exif_header()[0]);
                assert(data@.subrange(a as int, a + 6)[1] == exif_header()[1]);
                assert(data@.subrange(a as int, a + 6)[2] == exif_header()[2]);
                assert(data@.subrange(a as int, a + 6)[3] == exif_header()[3]);
                assert(data@.subrange(a as int, a + 6)[4] == exif_header()[4]);
                assert(data@.subrange(a as int, a + 6)[5] == exif_header()[5]);
            }
        }
    }
    ok
}

/// Parses the EXIF segment of `data`.
fn parse_segment(data: &[u8]) -> (r: Result<ExifSegment, ExifError>)
    ensures
        match spec_exif_segment(data@) {
            Ok(m) => r matches Ok(seg) && seg@ == m,
            Err(e) => r == Err::<ExifSegment, ExifError>(e),
        },
{
    let len = data.len();
    let p = match find_marker(data) {
        Some(p) => p,
        None => return Err(ExifError::MarkerNotFound(EXIF_MARKER)),
    };
    if !region_fits(len, p, 4) {
        return Err(ExifError::SliceRead("Segment length"));
    }
    if !region_fits(len, p, 10) {
        return Err(ExifError::SliceRead("Exif header"));
    }
    let segment_length = calculate_length_from_bytes([data[p + 2], data[p + 3]]);
    if !has_exif_header(data, p + 4) {
        return Err(ExifError::ExifStartNotFound);
    }
    let tiff_start = p + 10;
    if !region_fits(len, tiff_start, 3) {
        return Err(ExifError::SliceRead("Cannot read Endian bytes"));
    }
    let endian = match ByteOrder::try_from(&data[tiff_start..tiff_start + 3]) {
        Ok(o) => o,
        Err(e) => return Err(ExifError::Endian(e)),
    };
    if !region_fits(len, tiff_start + 2, 2) {
        return Err(ExifError::SliceRead("Cannot read EXIF signature"));
    }
    let signature = match endian.read_u16(&data[tiff_start + 2..tiff_start + 4]) {
        Ok(v) => v,
        Err(e) => return Err(ExifError::Endian(e)),
    };
    if signature != VALID_SIGNATURE {
        return Err(ExifError::WrongSignature(signature));
    }
    if !region_fits(len, tiff_start + 4, 4) {
        return Err(ExifError::SliceRead("Cannot read EXIF IFD0 offset"));
    }
    let ifd0_offset = match endian.read_u32(&data[tiff_start + 4..tiff_start + 8]) {
        Ok(v) => v as usize,
        Err(e) => return Err(ExifError::Endian(e)),
    };
    if ifd0_offset > len - tiff_start || len - tiff_start - ifd0_offset < 2 {
        return Err(ExifError::SliceRead("Failed to read Tags amount"));
    }
    let ifd0_start = tiff_start + ifd0_offset;
    let tags_amount = match endian.read_u16(&data[ifd0_start..ifd0_start + 2]) {
        Ok(v) => v as usize,
        Err(e) => return Err(ExifError::Endian(e)),
    };
    let tags = match parse_tags(data, endian, tiff_start, ifd0_start + 2, tags_amount) {
        Ok(tags) => tags,
        Err(e) => return Err(e),
    };
    if !region_fits(len, p + 4, segment_length) {
        return Err(ExifError::SliceRead("Segment data"));
    }
    Ok(
            ExifSegment {
                start: p + 4,
                tiff_start,
                len: segment_length,
                endian,
                ifd0_offset,
                ifd0_start,
                tags_amount,
                tags,
            },
        )
}

impl ExifSegment {
    /// Position of the `Exif\0\0` header in the input.
    pub fn start(&self) -> (r: usize)
        ensures
            r == self@.start,
    {
        self.start
    }

    /// Position of the TIFF header in the input.
    pub fn tiff_start(&self) -> (r: usize)
        ensures
            r == self@.tiff_start,
    {
        self.tiff_start
    }

    /// The segment length stored after the marker.
    pub fn len(&self) -> (r: usize)
        ensures
            r == self@.len,
    {
        self.len
    }

    /// The byte order of the TIFF header.
    pub fn endian(&self) -> (r: ByteOrder)
        ensures
            r == self@.endian,
    {
        self.endian
    }

    /// The stored offset of IFD0 from the TIFF header.
    pub fn ifd0_offset(&self) -> (r: usize)
        ensures
            r == self@.ifd0_offset,
    {
        self.ifd0_offset
    }

    /// Position of IFD0 in the input.
    pub fn ifd0_start(&self) -> (r: usize)
        ensures
            r == self@.ifd0_start,
    {
        self.ifd0_start
    }

    /// The number of entries that IFD0 declares.
    pub fn tags_amount(&self) -> (r: usize)
        ensures
            r == self@.tags_amount,
    {
        self.tags_amount
    }

    /// The decoded entries of IFD0, in order.
    pub fn tags(&self) -> (r: &Vec<Tag>)
        ensures
            r@.map_values(|tag: Tag| tag@) == self@.tags,
    {
        &self.tags
    }

    /// Finds the first APP1 segment of a JPEG byte stream and decodes its
    /// TIFF header and the entries of IFD0.
    pub fn try_from(file_data: &[u8]) -> (r: Result<ExifSegment, ExifError>)
        ensures
            match spec_exif_segment(file_data@) {
                Ok(m) => r matches Ok(seg) && seg@ == m,
                Err(e) => r == Err::<ExifSegment, ExifError>(e),
            },
    {
        parse_segment(file_data)
    }
}


/// Decoding `n` IFD entries, when it succeeds, gives exactly `n` entries.
proof fn lemma_parse_tags_len(d: Seq<u8>, order: ByteOrder, t: int, first: int, n: nat)
    ensures
        spec_parse_tags(d, order, t, first, n) matches Ok(tags) ==> tags.len() == n,
    decreases n,
{
    if n > 0 {
        lemma_parse_tags_len(d, order, t, first, (n - 1) as nat);
    }
}

/// The entries of a decoded run are the entries decoded one by one.
proof fn lemma_parse_tags_each(d: Seq<u8>, order: ByteOrder, t: int, first: int, n: nat)
    ensures
        spec_parse_tags(d, order, t, first, n) matches Ok(tags) ==> forall|k: int|
            0 <= k < n ==> spec_parse_tag(d, order, t, first + 12 * k) == Ok::<TagModel, ExifError>(
                #[trigger] tags[k],
            ),
    decreases n,
{
    if n > 0 {
        lemma_parse_tags_each(d, order, t, first, (n - 1) as nat);
        lemma_parse_tags_len(d, order, t, first, (n - 1) as nat);
    }
}

/// Whether `tag` is the entry that the IFD entry at `e` holds, with the TIFF
/// header at `t`: its identifier bytes, the type its type code names, and the
/// `size * count` bytes of its value, inline in the value field when they are
/// at most four, else at the stored offset from the TIFF header.
pub open spec fn entry_holds(d: Seq<u8>, order: ByteOrder, t: int, e: int, tag: TagModel) -> bool {
    let count = read_at(order, d, e + 4, 4);
    let m = spec_tag_size(tag.kind) * count;
    &&& tag.id == d.subrange(e, e + 2)
    &&& spec_tag_type(read_at(order, d, e + 2, 2) as u16) == Some(tag.kind)
    &&& m <= 4 ==> tag.value == d.subrange(e + 8, e + 12)
    &&& m > 4 ==> tag.value == d.subrange(
        t + read_at(order, d, e + 8, 4),
        t + read_at(order, d, e + 8, 4) + m,
    )
}

/// A decoded EXIF segment is laid out as the format fixes it: it belongs to
/// the first APP1 marker, its length is the two bytes after the marker, the
/// TIFF header follows the six bytes `Exif\0\0` at the segment's start with
/// a valid byte-order mark and signature, IFD0 lies at the stored offset from
/// the TIFF header, the segment holds exactly as many entries as IFD0
/// declares, each entry is the one stored in IFD0, and the whole segment lies
/// inside the input.
pub proof fn lemma_segment_layout(d: Seq<u8>)
    ensures
        spec_exif_segment(d) matches Ok(m) ==> {
            &&& m.start >= 4
            &&& marker_search(d, 0) == Some((m.start - 4) as nat)
            &&& m.len == d[m.start - 2] as nat * 256 + d[m.start - 1] as nat
            &&& d.subrange(m.start as int, m.start + 6int) == seq![0x45u8, 0x78u8, 0x69u8, 0x66u8, 0x00u8, 0x00u8]
            &&& m.tiff_start == m.start + 6
            &&& spec_byte_order(d.subrange(m.tiff_start as int, m.tiff_start + 3int)) == Ok::<
                ByteOrder,
                crate::parser::exif::byte_order::ByteOrderError,
            >(m.endian)
            &&& read_at(m.endian, d, m.tiff_start + 2int, 2) == 0x2Anat
            &&& m.ifd0_offset == read_at(m.endian, d, m.tiff_start + 4int, 4)
            &&& m.ifd0_start == m.tiff_start + m.ifd0_offset
            &&& m.tags_amount == read_at(m.endian, d, m.ifd0_start as int, 2)
            &&& m.tags.len() == m.tags_amount
            &&& forall|k: int|
                0 <= k < m.tags_amount ==> entry_holds(
                    d,
                    m.endian,
                    m.tiff_start as int,
                    m.ifd0_start + 2 + 12 * k,
                    #[trigger] m.tags[k],
                )
            &&& m.start + m.len <= d.len()
            &&& m.ifd0_start + 2 <= d.len()
        },
{
    if let Some(p) = marker_search(d, 0) {
        let p = p as int;
        if p + 10 <= d.len() && d.subrange(p + 4, p + 10) == exif_header() {
            let t = p + 10;
            if fits(d, t, 3) {
                if let Ok(order) = spec_byte_order(d.subrange(t, t + 3)) {
                    if fits(d, t + 4, 4) {
                        let o = read_at(order, d, t + 4, 4) as int;
                        let n = read_at(order, d, t + o, 2);
                        lemma_parse_tags_len(d, order, t, t + o + 2, n);
                        lemma_parse_tags_each(d, order, t, t + o + 2, n);
                        if let Ok(tags) = spec_parse_tags(d, order, t, t + o + 2, n) {
                            assert forall|k: int| 0 <= k < n implies entry_holds(
                                d,
                                order,
                                t,
                                t + o + 2 + 12 * k,
                                #[trigger] tags[k],
                            ) by {
                                assert(spec_parse_tag(d, order, t, t + o + 2 + 12 * k) == Ok::<
                                    TagModel,
                                    ExifError,
                                >(tags[k]));
                            }
                        }
                    }
                }
            }
        }
    }
}


/// Whether the bytes `0xFF 0xE1` stand at positions `p` and `p + 1` of `d`.
pub open spec fn app1_pair_at(d: Seq<u8>, p: int) -> bool {
    0 <= p && p + 1 < d.len() && d[p] == 0xFFu8 && d[p + 1] == 0xE1u8
}

/// The marker search from `i` finds the first `0xFF 0xE1` pair at or after `i`.
proof fn lemma_marker_search_from(d: Seq<u8>, i: nat)
    ensures
        marker_search(d, i) matches Some(p) ==> i <= p && app1_pair_at(d, p as int) && forall|q: int|
            i <= q < p ==> !#[trigger] app1_pair_at(d, q),
        marker_search(d, i) is None ==> forall|q: int| i <= q ==> !#[trigger] app1_pair_at(d, q),
    decreases d.len() - i,
{
    if i + 1 < d.len() && !marker_at(d, i as int) {
        lemma_marker_search_from(d, i + 1);
        assert(!app1_pair_at(d, i as int));
    }
}

/// The marker search finds the first `0xFF 0xE1` pair of the whole stream,
/// wherever it stands: it gives position `p` exactly when the pair stands at
/// `p` and at no earlier position, and it gives nothing exactly when the pair
/// stands nowhere.
pub proof fn lemma_marker_search_finds_first_pair(d: Seq<u8>, p: int)
    ensures
        marker_search(d, 0) == Some(p as nat) && p >= 0 <==> app1_pair_at(d, p) && forall|q: int|
            0 <= q < p ==> !#[trigger] app1_pair_at(d, q),
        marker_search(d, 0) is None <==> forall|q: int| !#[trigger] app1_pair_at(d, q),
{
    lemma_marker_search_from(d, 0);
    if app1_pair_at(d, p) && forall|q: int| 0 <= q < p ==> !#[trigger] app1_pair_at(d, q) {
        match marker_search(d, 0) {
            Some(r) => {
                if r < p {
                    assert(app1_pair_at(d, r as int));
                } else if r > p {
                    assert(!app1_pair_at(d, p));
                }
            },
            None => {
                assert(!app1_pair_at(d, p));
            },
        }
    }
    if marker_search(d, 0) is Some {
        let r = marker_search(d, 0)->0;
        assert(app1_pair_at(d, r as int));
    }
}

} // verus!
