//! Media type detection and dispatch to the format parsers.
use crate::parser::{heic, jpeg, tiff, FileParser, MediaMeta, ParseError};
use crate::paths::{extension_of, path_extension};
use crate::text::{
    ascii_fold, eq_ignore_ascii_case, lemma_ignore_case_is_either_case, spells_either_case,
    str_eq_ignore_ascii_case,
};
use vstd::prelude::*;

verus! {

/// The media formats that a scan recognises.
#[derive(Debug, PartialEq, Eq, Clone, Copy)]
pub enum MediaType {
    Jpeg,
    Tiff,
    Heic,
}

/// The media type that a file extension denotes: `jpg`/`jpeg`, `tif`/`tiff`
/// and `heic`, in any ASCII case.
pub open spec fn spec_media_type_of_extension(extension: Option<Seq<char>>) -> Option<MediaType> {
    match extension {
        None => None,
        Some(e) => if eq_ignore_ascii_case(e, "jpg"@) || eq_ignore_ascii_case(e, "jpeg"@) {
            Some(MediaType::Jpeg)
        } else if eq_ignore_ascii_case(e, "tif"@) || eq_ignore_ascii_case(e, "tiff"@) {
            Some(MediaType::Tiff)
        } else if eq_ignore_ascii_case(e, "heic"@) {
            Some(MediaType::Heic)
        } else {
            None
        },
    }
}

/// The media type that the extension of `path` denotes.
pub open spec fn spec_media_type(path: Seq<char>) -> Option<MediaType> {
    spec_media_type_of_extension(extension_of(path))
}

/// The media type that a file extension (without its dot) denotes.
pub fn media_type_of_extension(extension: Option<&str>) -> (r: Option<MediaType>)
    ensures
        r == spec_media_type_of_extension(
            match extension {
                Some(e) => Some(e@),
                None => None,
            },
        ),
{
    let extension = match extension {
        Some(e) => e,
        None => return None,
    };
    if str_eq_ignore_ascii_case(extension, "jpg") || str_eq_ignore_ascii_case(extension, "jpeg") {
        Some(MediaType::Jpeg)
    } else if str_eq_ignore_ascii_case(extension, "tif") || str_eq_ignore_ascii_case(
        extension,
        "tiff",
    ) {
        Some(MediaType::Tiff)
    } else if str_eq_ignore_ascii_case(extension, "heic") {
        Some(MediaType::Heic)
    } else {
        None
    }
}

/// Detects the media type of a file from the extension of its path.
pub fn detect_media_type(path: &str) -> (r: Option<MediaType>)
    ensures
        r == spec_media_type(path@),
{
    media_type_of_extension(path_extension(path))
}

/// Parses the media file at `path` with the parser its extension selects.
/// `contents` is what reading the file gave; only the JPEG parser looks at
/// it.  A path with no recognised extension gives `ParseError::WrongType`
/// carrying the path.
pub fn parse_media_file(path: &str, contents: Result<Vec<u8>, std::io::Error>) -> (r: Result<
    MediaMeta,
    ParseError,
>)
    ensures
        match spec_media_type(path@) {
            Some(MediaType::Jpeg) => match contents {
                Err(e) => r == Err::<MediaMeta, ParseError>(ParseError::Jpeg(jpeg::JpegError::Io(e))),
                Ok(data) => match crate::parser::exif::segment::spec_exif_segment(data@) {
                    Err(e) => r == Err::<MediaMeta, ParseError>(
                        ParseError::Jpeg(jpeg::JpegError::Exif(e)),
                    ),
                    Ok(_) => r matches Err(ParseError::WrongType(p)) && p@ == path@,
                },
            },
            _ => r matches Err(ParseError::WrongType(p)) && p@ == path@,
        },
{
    match detect_media_type(path) {
        Some(MediaType::Jpeg) => match jpeg::Parser::parse(path, contents) {
            Ok(m) => Ok(MediaMeta::Jpeg(m)),
            Err(e) => Err(e),
        },
        Some(MediaType::Heic) => match heic::Parser::parse(path, contents) {
            Ok(m) => Ok(MediaMeta::Heic(m)),
            Err(e) => Err(e),
        },
        Some(MediaType::Tiff) => match tiff::Parser::parse(path, contents) {
            Ok(m) => Ok(MediaMeta::Tiff(m)),
            Err(e) => Err(e),
        },
        None => Err(ParseError::WrongType(path.to_owned())),
    }
}


/// Media detection ignores the ASCII case of the extension: two paths whose
/// extensions are equal up to ASCII case have the same media type.
pub proof fn lemma_media_type_ignores_case(p1: Seq<char>, p2: Seq<char>)
    requires
        extension_of(p1) matches Some(e1) && extension_of(p2) matches Some(e2)
            && eq_ignore_ascii_case(e1, e2),
    ensures
        spec_media_type(p1) == spec_media_type(p2),
{
    let e1 = extension_of(p1)->0;
    let e2 = extension_of(p2)->0;
    assert forall|lit: Seq<char>| eq_ignore_ascii_case(e1, lit) == eq_ignore_ascii_case(e2, lit) by {
        if eq_ignore_ascii_case(e1, lit) {
            assert forall|i: int| 0 <= i < e2.len() implies #[trigger] ascii_fold(e2[i]) == ascii_fold(lit[i]) by {
                assert(ascii_fold(e1[i]) == ascii_fold(e2[i]));
            }
        }
        if eq_ignore_ascii_case(e2, lit) {
            assert forall|i: int| 0 <= i < e1.len() implies #[trigger] ascii_fold(e1[i]) == ascii_fold(lit[i]) by {
                assert(ascii_fold(e1[i]) == ascii_fold(e2[i]));
            }
        }
    }
}


/// Whether `e` is `jpg` or `jpeg`, each letter in either case.
pub open spec fn spells_jpeg(e: Seq<char>) -> bool {
    spells_either_case(e, seq!['j', 'p', 'g'], seq!['J', 'P', 'G']) || spells_either_case(
        e,
        seq!['j', 'p', 'e', 'g'],
        seq!['J', 'P', 'E', 'G'],
    )
}

/// Whether `e` is `tif` or `tiff`, each letter in either case.
pub open spec fn spells_tiff(e: Seq<char>) -> bool {
    spells_either_case(e, seq!['t', 'i', 'f'], seq!['T', 'I', 'F']) || spells_either_case(
        e,
        seq!['t', 'i', 'f', 'f'],
        seq!['T', 'I', 'F', 'F'],
    )
}

/// Whether `e` is `heic`, each letter in either case.
pub open spec fn spells_heic(e: Seq<char>) -> bool {
    spells_either_case(e, seq!['h', 'e', 'i', 'c'], seq!['H', 'E', 'I', 'C'])
}

/// The media type of an extension is fixed by its spelling: JPEG exactly for
/// `jpg` and `jpeg`, TIFF exactly for `tif` and `tiff`, HEIC exactly for
/// `heic`, each letter in either case; every other extension, and a missing
/// one, has no media type.
pub proof fn lemma_media_type_by_spelling(e: Seq<char>)
    ensures
        spec_media_type_of_extension(None) is None,
        spec_media_type_of_extension(Some(e)) == Some(MediaType::Jpeg) <==> spells_jpeg(e),
        spec_media_type_of_extension(Some(e)) == Some(MediaType::Tiff) <==> spells_tiff(e),
        spec_media_type_of_extension(Some(e)) == Some(MediaType::Heic) <==> spells_heic(e),
        spec_media_type_of_extension(Some(e)) is None <==> !spells_jpeg(e) && !spells_tiff(e)
            && !spells_heic(e),
{
    reveal_strlit("jpg");
    reveal_strlit("jpeg");
    reveal_strlit("tif");
    reveal_strlit("tiff");
    reveal_strlit("heic");
    assert("jpg"@ =~= seq!['j', 'p', 'g']);
    assert("jpeg"@ =~= seq!['j', 'p', 'e', 'g']);
    assert("tif"@ =~= seq!['t', 'i', 'f']);
    assert("tiff"@ =~= seq!['t', 'i', 'f', 'f']);
    assert("heic"@ =~= seq!['h', 'e', 'i', 'c']);
    lemma_ignore_case_is_either_case(e, seq!['j', 'p', 'g'], seq!['J', 'P', 'G']);
    lemma_ignore_case_is_either_case(e, seq!['j', 'p', 'e', 'g'], seq!['J', 'P', 'E', 'G']);
    lemma_ignore_case_is_either_case(e, seq!['t', 'i', 'f'], seq!['T', 'I', 'F']);
    lemma_ignore_case_is_either_case(e, seq!['t', 'i', 'f', 'f'], seq!['T', 'I', 'F', 'F']);
    lemma_ignore_case_is_either_case(e, seq!['h', 'e', 'i', 'c'], seq!['H', 'E', 'I', 'C']);
    if spells_jpeg(e) {
        assert(!spells_tiff(e) && !spells_heic(e)) by {
            if e.len() > 0 {
                assert(e[0] == 'j' || e[0] == 'J');
            }
        }
    }
    if spells_tiff(e) {
        assert(!spells_heic(e)) by {
            if e.len() > 0 {
                assert(e[0] == 't' || e[0] == 'T');
            }
        }
    }
}

/// The media type of a path is fixed by the spelling of its extension: JPEG
/// exactly for `jpg`/`jpeg`, TIFF exactly for `tif`/`tiff`, HEIC exactly for
/// `heic`, each letter in either case, and none otherwise.
pub proof fn lemma_path_media_type_by_spelling(p: Seq<char>)
    ensures
        spec_media_type(p) == Some(MediaType::Jpeg) <==> (extension_of(p) matches Some(e)
            && spells_jpeg(e)),
        spec_media_type(p) == Some(MediaType::Tiff) <==> (extension_of(p) matches Some(e)
            && spells_tiff(e)),
        spec_media_type(p) == Some(MediaType::Heic) <==> (extension_of(p) matches Some(e)
            && spells_heic(e)),
        spec_media_type(p) is None <==> (extension_of(p) matches Some(e) ==> !spells_jpeg(e)
            && !spells_tiff(e) && !spells_heic(e)),
{
    match extension_of(p) {
        Some(e) => lemma_media_type_by_spelling(e),
        None => lemma_media_type_by_spelling(Seq::empty()),
    }
}

} // verus!
