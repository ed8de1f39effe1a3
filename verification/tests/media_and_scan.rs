use metafix_core::engine::media::{
    detect_media_type, media_type_of_extension, parse_media_file, MediaType,
};
use metafix_core::engine::scan::{
    is_json_extension, is_supplementary_path, locate_supplementary, sidecar_media_name, partition_supplementary,
    supplementary_to_filename, supplementary_to_lookup, ScanError, SupplementaryLookup,
};
use metafix_core::parser::exif::error::ExifError;
use metafix_core::parser::jpeg::JpegError;
use metafix_core::parser::ParseError;
use metafix_core::text::{str_eq_ignore_ascii_case, str_strip_suffix};
use metafix_core::engine::EngineError;
use metafix_core::api::scan::build_report;
use metafix_core::{Error, ScanReport};

fn strings(v: &[&str]) -> Vec<String> {
    v.iter().map(|s| s.to_string()).collect()
}

#[test]
fn media_type_from_extension() {
    assert_eq!(detect_media_type("dir/photo1.jpg"), Some(MediaType::Jpeg));
    assert_eq!(detect_media_type("photo.JPEG"), Some(MediaType::Jpeg));
    assert_eq!(detect_media_type("scan.tif"), Some(MediaType::Tiff));
    assert_eq!(detect_media_type("scan.TiFf"), Some(MediaType::Tiff));
    assert_eq!(detect_media_type("IMG_1678.HEIC"), Some(MediaType::Heic));
    assert_eq!(detect_media_type("clip.mp4"), None);
    assert_eq!(detect_media_type("no_extension"), None);
    assert_eq!(detect_media_type(".jpg"), None);
    assert_eq!(detect_media_type("photo.jpg.supplemental-metadata.json"), None);
}

#[test]
fn unknown_type_is_wrong_type() {
    let r = parse_media_file("clip.mp4", Ok(vec![]));
    assert!(matches!(r, Err(ParseError::WrongType(p)) if p == "clip.mp4"));
}

#[test]
fn tiff_and_heic_are_not_decoded() {
    let r = parse_media_file("a/photo2.tiff", Ok(vec![1, 2, 3]));
    assert!(matches!(r, Err(ParseError::WrongType(p)) if p == "a/photo2.tiff"));
    let r = parse_media_file("a/photo3.heic", Ok(vec![]));
    assert!(matches!(r, Err(ParseError::WrongType(p)) if p == "a/photo3.heic"));
}

#[test]
fn jpeg_read_error_is_reported() {
    let e = std::io::Error::new(std::io::ErrorKind::NotFound, "gone");
    let r = parse_media_file("photo4.jpg", Err(e));
    assert!(matches!(r, Err(ParseError::Jpeg(JpegError::Io(e))) if e.kind() == std::io::ErrorKind::NotFound));
}

#[test]
fn empty_jpeg_has_no_exif_marker() {
    let r = parse_media_file("photo1.jpg", Ok(vec![]));
    assert!(matches!(
        r,
        Err(ParseError::Jpeg(JpegError::Exif(ExifError::MarkerNotFound(0xE1))))
    ));
}

#[test]
fn jpeg_with_exif_is_not_turned_into_metadata() {
    let mut d = vec![0xFF, 0xD8, 0xFF, 0xE1, 0x00, 0x00];
    d.extend_from_slice(b"Exif\0\0II\x2A\x00\x08\x00\x00\x00\x00\x00\x00\x00\x00\x00\xFF\xD9");
    let n = d.len() - 6;
    d[5] = n as u8;
    let r = parse_media_file("dog.jpg", Ok(d));
    assert!(matches!(r, Err(ParseError::WrongType(p)) if p == "dog.jpg"));
}

#[test]
fn json_files_are_supplementary() {
    assert!(is_supplementary_path("a/photo1.jpg.supplemental-metadata.json"));
    assert!(is_supplementary_path("a/x.JSON"));
    assert!(!is_supplementary_path("a/photo1.jpg"));
    assert!(!is_supplementary_path("json"));
}

#[test]
fn partition_keeps_order() {
    let paths = strings(&["b.jpg", "b.jpg.supplemental-metadata.json", "c.tiff", "d.Json", "e.mp4"]);
    let (supp, media) = partition_supplementary(paths);
    assert_eq!(supp, strings(&["b.jpg.supplemental-metadata.json", "d.Json"]));
    assert_eq!(media, strings(&["b.jpg", "c.tiff", "e.mp4"]));
}

#[test]
fn sidecar_names_the_media_file() {
    assert_eq!(
        supplementary_to_filename("root/sub_dir/photo1.jpg.supplemental-metadata.json"),
        Some("root/sub_dir/photo1.jpg".to_string())
    );
    assert_eq!(supplementary_to_filename("root/photo.json"), None);
    assert_eq!(supplementary_to_filename("root/.."), None);
}

#[test]
fn lookup_finds_sidecars() {
    let lookup = supplementary_to_lookup(strings(&[
        "r/sub_dir/photo1.jpg.supplemental-metadata.json",
        "r/photo4.jpg.supplemental-metadata.json",
        "r/other.json",
    ]));
    assert_eq!(
        lookup.get("r/photo4.jpg"),
        Some("r/photo4.jpg.supplemental-metadata.json".to_string())
    );
    assert_eq!(lookup.get("r/photo6.heic"), None);
    assert_eq!(
        locate_supplementary(&lookup, "r/sub_dir/photo1.jpg").unwrap(),
        "r/sub_dir/photo1.jpg.supplemental-metadata.json"
    );
    assert!(matches!(
        locate_supplementary(&lookup, "r/photo5.tiff"),
        Err(ScanError::JsonNotFound(p)) if p == "r/photo5.tiff"
    ));
}

#[test]
fn lookup_compares_paths_not_strings() {
    let lookup = supplementary_to_lookup(strings(&["album/x.jpg.supplemental-metadata.json"]));
    assert_eq!(lookup.get("album//x.jpg"), Some("album/x.jpg.supplemental-metadata.json".to_string()));
    assert_eq!(lookup.get("album/./x.jpg"), Some("album/x.jpg.supplemental-metadata.json".to_string()));
    assert_eq!(lookup.get("album/y.jpg"), None);
}

#[test]
fn truncated_jpeg_is_a_per_file_error() {
    let r = parse_media_file("cut.jpg", Ok(vec![0xFF, 0xD8, 0xFF, 0xE1, 0x00]));
    assert!(matches!(
        r,
        Err(ParseError::Jpeg(JpegError::Exif(ExifError::SliceRead("Segment length"))))
    ));
}

#[test]
fn later_entry_shadows_earlier() {
    let mut lookup = SupplementaryLookup::new();
    lookup.insert("m".to_string(), "first".to_string());
    lookup.insert("m".to_string(), "second".to_string());
    assert_eq!(lookup.get("m"), Some("second".to_string()));
}

#[test]
fn scan_plan_of_a_takeout_tree() {
    // The files of a Takeout export: six media files, three with sidecars.
    let walked = strings(&[
        "r/sub_dir/photo1.jpg",
        "r/sub_dir/photo1.jpg.supplemental-metadata.json",
        "r/sub_dir/photo2.tiff",
        "r/sub_dir/photo3.heic",
        "r/photo4.jpg",
        "r/photo4.jpg.supplemental-metadata.json",
        "r/photo5.tiff",
        "r/photo5.tiff.supplemental-metadata.json",
        "r/photo6.heic",
    ]);
    let (supp, media) = partition_supplementary(walked);
    assert_eq!(media.len(), 6);
    let lookup = supplementary_to_lookup(supp);
    let mut report: ScanReport<String> = ScanReport::new();
    for m in &media {
        let json = locate_supplementary(&lookup, m);
        let meta = parse_media_file(m, Ok(vec![]));
        report.record_media_file(m.clone(), meta, json);
    }
    assert!(matches!(
        &report.files[5].json,
        Err(Error::Engine(EngineError::Scan(ScanError::JsonNotFound(p)))) if p == &report.files[5].path
    ));
    assert!(matches!(
        &report.files[0].meta,
        Err(Error::Engine(EngineError::Scan(ScanError::Parser(_))))
    ));
    assert_eq!(report.files.len(), 6);
    assert_eq!(report.stats.total, 6);
    assert!(report.warnings.is_empty());
    assert_eq!(report.files.iter().filter(|f| f.json.is_ok()).count(), 3);
    assert!(report.files.iter().all(|f| f.meta.is_err()));
}

#[test]
fn case_insensitive_comparison() {
    assert!(str_eq_ignore_ascii_case("JpEg", "jpeg"));
    assert!(!str_eq_ignore_ascii_case("jpg", "jpeg"));
    assert!(str_eq_ignore_ascii_case("ÉA", "Éa"));
    assert!(!str_eq_ignore_ascii_case("É", "é"));
}

#[test]
fn suffix_stripping() {
    assert_eq!(str_strip_suffix("a.jpg.json", ".json"), Some("a.jpg"));
    assert_eq!(str_strip_suffix("a.json", "x.json"), None);
    assert_eq!(str_strip_suffix("json", ".json"), None);
    assert_eq!(str_strip_suffix("ünï.json", ".json"), Some("ünï"));
}

#[test]
fn new_report_is_empty() {
    let r: ScanReport<()> = ScanReport::new();
    assert!(r.files.is_empty());
    assert_eq!(r.stats.total, 0);
    assert!(r.warnings.is_empty());
}

#[test]
fn media_type_of_bare_extensions() {
    assert_eq!(media_type_of_extension(Some("JPG")), Some(MediaType::Jpeg));
    assert_eq!(media_type_of_extension(Some("jpeg")), Some(MediaType::Jpeg));
    assert_eq!(media_type_of_extension(Some("TIF")), Some(MediaType::Tiff));
    assert_eq!(media_type_of_extension(Some("tiff")), Some(MediaType::Tiff));
    assert_eq!(media_type_of_extension(Some("Heic")), Some(MediaType::Heic));
    assert_eq!(media_type_of_extension(Some("png")), None);
    assert_eq!(media_type_of_extension(Some("")), None);
    assert_eq!(media_type_of_extension(None), None);
}

#[test]
fn json_extension() {
    assert!(is_json_extension(Some("json")));
    assert!(is_json_extension(Some("JsOn")));
    assert!(!is_json_extension(Some("jsonl")));
    assert!(!is_json_extension(None));
}

#[test]
fn sidecar_name_to_media_name() {
    assert_eq!(sidecar_media_name("IMG_1678.HEIC.supplemental-metadata.json"), Some("IMG_1678.HEIC"));
    assert_eq!(sidecar_media_name(".supplemental-metadata.json"), Some(""));
    assert_eq!(sidecar_media_name("IMG_1678.HEIC.json"), None);
}

#[test]
fn report_from_per_file_results() {
    let files = vec![
        ("a.jpg".to_string(), parse_media_file("a.jpg", Ok(vec![])), Ok::<u8, ScanError>(1)),
        ("b.tif".to_string(), parse_media_file("b.tif", Ok(vec![])), Err(ScanError::JsonNotFound("b.tif".to_string()))),
    ];
    let report = build_report(files);
    assert_eq!(report.stats.total, 2);
    assert_eq!(report.files.len(), 2);
    assert!(report.warnings.is_empty());
    assert_eq!(report.files[0].path, "a.jpg");
    assert!(matches!(report.files[0].json, Ok(1)));
    assert!(matches!(
        &report.files[0].meta,
        Err(Error::Engine(EngineError::Scan(ScanError::Parser(ParseError::Jpeg(_)))))
    ));
    assert!(matches!(
        &report.files[1].json,
        Err(Error::Engine(EngineError::Scan(ScanError::JsonNotFound(p)))) if p == "b.tif"
    ));
    let empty = build_report::<u8>(Vec::new());
    assert_eq!(empty.stats.total, 0);
    assert!(empty.files.is_empty());
}
